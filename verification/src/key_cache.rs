use vstd::prelude::*;

verus! {

/// How loading one user's keys from the key directory went.
pub enum UserKeyLoad<C> {
    /// The directory entry itself could not be read.
    EntryUnreadable,
    /// The entry's name is not a valid user token.
    TokenUnreadable,
    PublicKeyUnreadable,
    PrivateKeyUnreadable,
    /// The two keys do not make a usable key pair.
    CryptoInvalid,
    Loaded { user_token: String, crypto: C },
}

/// The key material of each user, found by user token. No user token
/// occurs twice among the entries.
pub struct ProxyRsaCryptoFetcher<C> {
    entries: Vec<(String, C)>,
}

/// The keys that a run of loads yields: every load that worked, a later
/// one for a token replacing an earlier one.
pub open spec fn loaded_keys<C>(loads: Seq<UserKeyLoad<C>>) -> Map<Seq<char>, C>
    decreases loads.len(),
{
    if loads.len() == 0 {
        Map::empty()
    } else {
        let earlier = loaded_keys(loads.drop_last());
        match loads.last() {
            UserKeyLoad::Loaded { user_token, crypto } => earlier.insert(user_token@, crypto),
            _ => earlier,
        }
    }
}

/// No token occurs twice among `entries`.
pub closed spec fn tokens_unique<C>(entries: Seq<(String, C)>) -> bool {
    forall|i: int, j: int|
        0 <= i < entries.len() && 0 <= j < entries.len() && i != j ==> #[trigger] entries[i].0@
            != #[trigger] entries[j].0@
}

/// The keys that `entries` hold, by token.
pub closed spec fn entries_map<C>(entries: Seq<(String, C)>) -> Map<Seq<char>, C> {
    Map::new(
        |k: Seq<char>| exists|i: int| 0 <= i < entries.len() && #[trigger] entries[i].0@ == k,
        |k: Seq<char>| entries[choose|i: int| 0 <= i < entries.len() && #[trigger] entries[i].0@ == k].1,
    )
}

proof fn lemma_entry_in_map<C>(entries: Seq<(String, C)>, i: int)
    requires
        tokens_unique(entries),
        0 <= i < entries.len(),
    ensures
        entries_map(entries).contains_key(entries[i].0@),
        entries_map(entries)[entries[i].0@] == entries[i].1,
{
    let k = entries[i].0@;
    assert(entries_map(entries).dom().contains(k));
    let j = choose|j: int| 0 <= j < entries.len() && #[trigger] entries[j].0@ == k;
    assert(j == i);
}

proof fn lemma_replace_entry<C>(entries: Seq<(String, C)>, i: int, entry: (String, C))
    requires
        tokens_unique(entries),
        0 <= i < entries.len(),
        entries[i].0@ == entry.0@,
    ensures
        tokens_unique(entries.update(i, entry)),
        entries_map(entries.update(i, entry)) == entries_map(entries).insert(entry.0@, entry.1),
{
    let after = entries.update(i, entry);
    let k = entry.0@;
    assert forall|a: int, b: int| 0 <= a < after.len() && 0 <= b < after.len() && a != b implies #[trigger] after[a].0@
        != #[trigger] after[b].0@ by {
        assert(entries[a].0@ != entries[b].0@);
    }
    assert forall|key: Seq<char>| #[trigger] entries_map(after).contains_key(key) <==> entries_map(entries).insert(
        k,
        entry.1,
    ).contains_key(key) by {
        if entries_map(entries).contains_key(key) {
            let j = choose|j: int| 0 <= j < entries.len() && #[trigger] entries[j].0@ == key;
            assert(after[j].0@ == key);
        }
        if key == k {
            assert(after[i].0@ == key);
        }
        if entries_map(after).contains_key(key) {
            let j = choose|j: int| 0 <= j < after.len() && #[trigger] after[j].0@ == key;
            if j != i {
                assert(entries[j].0@ == key);
            }
        }
    }
    assert forall|key: Seq<char>| #[trigger] entries_map(after).contains_key(key) implies entries_map(after)[key]
        == entries_map(entries).insert(k, entry.1)[key] by {
        let j = choose|j: int| 0 <= j < after.len() && #[trigger] after[j].0@ == key;
        lemma_entry_in_map(after, j);
        if j != i {
            lemma_entry_in_map(entries, j);
        }
    }
    assert(entries_map(after) =~= entries_map(entries).insert(k, entry.1));
}

proof fn lemma_push_entry<C>(entries: Seq<(String, C)>, entry: (String, C))
    requires
        tokens_unique(entries),
        !entries_map(entries).contains_key(entry.0@),
    ensures
        tokens_unique(entries.push(entry)),
        entries_map(entries.push(entry)) == entries_map(entries).insert(entry.0@, entry.1),
{
    let after = entries.push(entry);
    let n = entries.len() as int;
    let k = entry.0@;
    assert forall|a: int, b: int| 0 <= a < after.len() && 0 <= b < after.len() && a != b implies #[trigger] after[a].0@
        != #[trigger] after[b].0@ by {
        if a < n && b < n {
            assert(entries[a].0@ != entries[b].0@);
        } else if a < n {
            lemma_entry_in_map(entries, a);
        } else if b < n {
            lemma_entry_in_map(entries, b);
        }
    }
    assert forall|key: Seq<char>| #[trigger] entries_map(after).contains_key(key) <==> entries_map(entries).insert(
        k,
        entry.1,
    ).contains_key(key) by {
        if entries_map(entries).contains_key(key) {
            let j = choose|j: int| 0 <= j < entries.len() && #[trigger] entries[j].0@ == key;
            assert(after[j].0@ == key);
        }
        if key == k {
            assert(after[n].0@ == key);
        }
        if entries_map(after).contains_key(key) {
            let j = choose|j: int| 0 <= j < after.len() && #[trigger] after[j].0@ == key;
            if j < n {
                assert(entries[j].0@ == key);
            }
        }
    }
    assert forall|key: Seq<char>| #[trigger] entries_map(after).contains_key(key) implies entries_map(after)[key]
        == entries_map(entries).insert(k, entry.1)[key] by {
        let j = choose|j: int| 0 <= j < after.len() && #[trigger] after[j].0@ == key;
        lemma_entry_in_map(after, j);
        if j < n {
            lemma_entry_in_map(entries, j);
        }
    }
    assert(entries_map(after) =~= entries_map(entries).insert(k, entry.1));
}

impl<C> View for ProxyRsaCryptoFetcher<C> {
    type V = Map<Seq<char>, C>;

    closed spec fn view(&self) -> Map<Seq<char>, C> {
        entries_map(self.entries@)
    }
}

/// Where the token's keys are among `entries`, if anywhere.
fn find_token<C>(entries: &Vec<(String, C)>, user_token: &String) -> (res: Option<usize>)
    requires
        tokens_unique(entries@),
    ensures
        match res {
            Some(i) => i < entries@.len() && entries@[i as int].0@ == user_token@,
            None => !entries_map(entries@).contains_key(user_token@),
        },
{
    let mut i: usize = 0;
    while i < entries.len()
        invariant
            i <= entries@.len(),
            forall|j: int| 0 <= j < i ==> #[trigger] entries@[j].0@ != user_token@,
        decreases entries@.len() - i,
    {
        if entries[i].0 == *user_token {
            return Some(i);
        }
        i = i + 1;
    }
    None
}

impl<C> ProxyRsaCryptoFetcher<C> {
    #[verifier::type_invariant]
    spec fn wf(&self) -> bool {
        tokens_unique(self.entries@)
    }

    /// What fetching `user_token` gives: its keys, if it has any.
    pub open spec fn lookup(&self, user_token: Seq<char>) -> Option<C> {
        if self@.contains_key(user_token) {
            Some(self@[user_token])
        } else {
            None
        }
    }

    /// A cache that holds nobody's keys.
    pub fn empty() -> (res: Self)
        ensures
            res@ == Map::<Seq<char>, C>::empty(),
    {
        let res = ProxyRsaCryptoFetcher { entries: Vec::new() };
        assert(res@ =~= Map::<Seq<char>, C>::empty());
        res
    }

    /// Keeps `crypto` as the keys of `user_token`, replacing any it had.
    pub fn insert(&mut self, user_token: String, crypto: C)
        ensures
            final(self)@ == old(self)@.insert(user_token@, crypto),
    {
        proof {
            use_type_invariant(&*self);
        }
        let mut entries: Vec<(String, C)> = Vec::new();
        std::mem::swap(&mut entries, &mut self.entries);
        let ghost before = entries@;
        match find_token(&entries, &user_token) {
            Some(i) => {
                proof {
                    lemma_replace_entry(before, i as int, (user_token, crypto));
                }
                entries.set(i, (user_token, crypto));
            },
            None => {
                proof {
                    lemma_push_entry(before, (user_token, crypto));
                }
                entries.push((user_token, crypto));
            },
        }
        self.entries = entries;
    }

    /// A cache of every user whose keys loaded, in the order of the loads.
    pub fn new(loads: Vec<UserKeyLoad<C>>) -> (res: Self)
        ensures
            res@ == loaded_keys(loads@),
    {
        let mut res = Self::empty();
        let mut rest = loads;
        let ghost all = loads@;
        assert(all.skip(0) == all);
        let n: usize = rest.len();
        let mut i: usize = 0;
        while rest.len() > 0
            invariant
                i + rest@.len() == all.len(),
                all.len() == n,
                rest@ == all.skip(i as int),
                res@ == loaded_keys(all.take(i as int)),
            decreases rest@.len(),
        {
            let load = rest.remove(0);
            proof {
                assert(load == all[i as int]);
                assert(all.take(i + 1).drop_last() == all.take(i as int));
                assert(all.take(i + 1).last() == all[i as int]);
                assert(rest@ == all.skip(i + 1));
            }
            match load {
                UserKeyLoad::Loaded { user_token, crypto } => res.insert(user_token, crypto),
                _ => {},
            }
            i = i + 1;
        }
        assert(all.take(all.len() as int) == all);
        res
    }

    /// The keys of `user_token`, if it has any.
    pub fn fetch(&self, user_token: &str) -> (res: Option<&C>)
        ensures
            match res {
                Some(c) => self.lookup(user_token@) == Some(*c),
                None => self.lookup(user_token@) is None,
            },
    {
        proof {
            use_type_invariant(self);
        }
        let token = user_token.to_owned();
        match find_token(&self.entries, &token) {
            Some(i) => {
                proof {
                    lemma_entry_in_map(self.entries@, i as int);
                }
                Some(&self.entries[i].1)
            },
            None => None,
        }
    }
}

/// Whether the load at `j` loaded keys for `token`.
pub open spec fn loads_token<C>(loads: Seq<UserKeyLoad<C>>, j: int, token: Seq<char>) -> bool {
    loads[j] is Loaded && loads[j]->Loaded_user_token@ == token
}

proof fn lemma_loaded_keys_has<C>(loads: Seq<UserKeyLoad<C>>, token: Seq<char>)
    ensures
        loaded_keys(loads).contains_key(token) <==> exists|j: int| 0 <= j < loads.len() && loads_token(loads, j, token),
    decreases loads.len(),
{
    if loads.len() > 0 {
        let earlier = loads.drop_last();
        let n = loads.len() - 1;
        lemma_loaded_keys_has(earlier, token);
        assert(loads.last() == loads[n]);
        if loads[n] is Loaded && loads[n]->Loaded_user_token@ == token {
            assert(loads_token(loads, n, token));
        }
        if exists|j: int| 0 <= j < earlier.len() && loads_token(earlier, j, token) {
            let j = choose|j: int| 0 <= j < earlier.len() && loads_token(earlier, j, token);
            assert(earlier[j] == loads[j]);
            assert(loads_token(loads, j, token));
        }
        if exists|j: int| 0 <= j < loads.len() && loads_token(loads, j, token) {
            let j = choose|j: int| 0 <= j < loads.len() && loads_token(loads, j, token);
            if j < n {
                assert(earlier[j] == loads[j]);
                assert(loads_token(earlier, j, token));
            } else {
                assert(loads.last() == loads[j]);
            }
        }
    }
}

proof fn lemma_loaded_keys_value<C>(loads: Seq<UserKeyLoad<C>>, token: Seq<char>, j: int)
    requires
        0 <= j < loads.len(),
        loads_token(loads, j, token),
        forall|k: int| j < k < loads.len() ==> !loads_token(loads, k, token),
    ensures
        loaded_keys(loads).contains_key(token),
        loaded_keys(loads)[token] == loads[j]->Loaded_crypto,
    decreases loads.len(),
{
    let n = loads.len() - 1;
    let earlier = loads.drop_last();
    if j == n {
        assert(loads.last() == loads[j]);
    } else {
        assert(!loads_token(loads, n, token));
        assert(earlier[j] == loads[j]);
        assert forall|k: int| j < k < earlier.len() implies !loads_token(earlier, k, token) by {
            assert(earlier[k] == loads[k]);
            assert(!loads_token(loads, k, token));
        }
        lemma_loaded_keys_value(earlier, token, j);
        assert(loads.last() == loads[n]);
    }
}

/// Which users a run of loads yields, and with which keys: a token has keys
/// exactly when some load in the run loaded keys for it, and they are the
/// keys of the last such load. A load that failed, wherever it stands,
/// takes nobody's keys away and gives nobody keys.
pub proof fn lemma_loaded_keys_exact<C>(loads: Seq<UserKeyLoad<C>>)
    ensures
        forall|token: Seq<char>|
            #[trigger] loaded_keys(loads).contains_key(token) <==> exists|j: int|
                0 <= j < loads.len() && loads_token(loads, j, token),
        forall|token: Seq<char>, j: int|
            0 <= j < loads.len() && #[trigger] loads_token(loads, j, token) && (forall|k: int|
                j < k < loads.len() ==> !loads_token(loads, k, token)) ==> loaded_keys(loads)[token]
                == loads[j]->Loaded_crypto,
{
    assert forall|token: Seq<char>|
        #[trigger] loaded_keys(loads).contains_key(token) <==> exists|j: int|
            0 <= j < loads.len() && loads_token(loads, j, token) by {
        lemma_loaded_keys_has(loads, token);
    }
    assert forall|token: Seq<char>, j: int|
        0 <= j < loads.len() && #[trigger] loads_token(loads, j, token) && (forall|k: int|
            j < k < loads.len() ==> !loads_token(loads, k, token)) implies loaded_keys(loads)[token]
        == loads[j]->Loaded_crypto by {
        lemma_loaded_keys_value(loads, token, j);
    }
}

/// What a read gives back of a write: once `after` is `before` with keys
/// kept for `user_token` (as `insert` leaves it), fetching that token gives
/// those keys, and fetching any other token gives what it gave before.
pub proof fn lemma_fetch_after_insert<C>(
    before: ProxyRsaCryptoFetcher<C>,
    after: ProxyRsaCryptoFetcher<C>,
    user_token: Seq<char>,
    crypto: C,
    other: Seq<char>,
)
    requires
        after@ == before@.insert(user_token, crypto),
    ensures
        after.lookup(user_token) == Some(crypto),
        other != user_token ==> after.lookup(other) == before.lookup(other),
{
}

} // verus!
