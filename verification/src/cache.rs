//! The key cache: each channel's key is derived on first use and kept, and
//! the shared state hands keys out to concurrent callers.

use crate::kdf::{channel_key, derive_channel_key};
use crate::primitives::KEY_LEN;
use std::collections::HashMap;
use vstd::prelude::*;
use vstd::rwlock::{RwLock, RwLockPredicate};
use vstd::utf8::encode_utf8;

verus! {

broadcast use vstd::std_specs::hash::group_hash_axioms;

/// The keys derived so far from one master secret, by channel.
pub struct KeyCache {
    master_secret: String,
    keys: HashMap<i64, Vec<u8>>,
}

impl View for KeyCache {
    type V = Map<i64, Seq<u8>>;

    /// The cached keys by channel id.
    closed spec fn view(&self) -> Map<i64, Seq<u8>> {
        self.keys@.map_values(|key: Vec<u8>| key@)
    }
}

impl KeyCache {
    /// Every cached key is the one derived for its channel, in full length.
    #[verifier::type_invariant]
    spec fn entries_are_derived(self) -> bool {
        forall|id: i64| #[trigger]
            self.keys@.contains_key(id) ==> {
                &&& self.keys@[id]@ == channel_key(self.secret(), id)
                &&& self.keys@[id]@.len() == KEY_LEN
            }
    }

    /// The bytes of the master secret that the keys are derived from.
    pub closed spec fn secret(&self) -> Seq<u8> {
        encode_utf8(self.master_secret@)
    }

    /// An empty cache for the keys of `master_secret`.
    pub fn new(master_secret: String) -> (cache: KeyCache)
        ensures
            cache.secret() == encode_utf8(master_secret@),
            cache@ == Map::<i64, Seq<u8>>::empty(),
    {
        KeyCache { master_secret, keys: HashMap::new() }
    }

    /// Whether the key of `channel_id` has been derived and cached. A cached
    /// key is the derived one.
    pub fn contains(&self, channel_id: i64) -> (cached: bool)
        ensures
            cached == self@.contains_key(channel_id),
            cached ==> self@[channel_id] == channel_key(self.secret(), channel_id),
    {
        proof {
            use_type_invariant(self);
        }
        self.keys.contains_key(&channel_id)
    }

    /// The number of channels whose key is cached.
    pub fn len(&self) -> (count: usize)
        ensures
            count == self@.len(),
    {
        assert(self@.dom() =~= self.keys@.dom());
        self.keys.len()
    }

    /// The key of `channel_id`: the cached one where there is one, else a
    /// newly derived one, which is then cached. An entry, once made, is
    /// never changed or removed.
    pub fn get_or_create(&mut self, channel_id: i64) -> (key: Vec<u8>)
        ensures
            key@ == channel_key(old(self).secret(), channel_id),
            key@.len() == KEY_LEN,
            final(self).secret() == old(self).secret(),
            final(self)@ == old(self)@.insert(channel_id, key@),
            old(self)@.contains_key(channel_id) ==> final(self)@ == old(self)@,
            old(self)@.submap_of(final(self)@),
    {
        proof {
            use_type_invariant(&*self);
        }
        match self.keys.get(&channel_id) {
            Some(cached) => cached.clone(),
            None => {
                let key = derive_channel_key(self.master_secret.as_str(), channel_id);
                let kept = key.clone();
                // The map is taken out while it changes, so that the cache
                // meets its invariant at every step.
                let mut keys: HashMap<i64, Vec<u8>> = HashMap::new();
                std::mem::swap(&mut self.keys, &mut keys);
                keys.insert(channel_id, kept);
                self.keys = keys;
                key
            },
        }
    }
}

/// What the lock of the shared state admits: a cache for one fixed secret.
struct CacheOf {
    secret: Seq<u8>,
}

impl RwLockPredicate<KeyCache> for CacheOf {
    closed spec fn inv(self, cache: KeyCache) -> bool {
        cache.secret() == self.secret
    }
}

/// The state that all requests share: the master secret and the key cache,
/// behind a lock that lets one request at a time look a key up or add one.
pub struct AppState {
    keys: RwLock<KeyCache, CacheOf>,
}

impl AppState {
    /// The bytes of the master secret, fixed when the state is made.
    pub closed spec fn secret(&self) -> Seq<u8> {
        self.keys.pred().secret
    }

    /// The shared state for `master_secret`, with no key derived yet.
    pub fn new(master_secret: String) -> (state: AppState)
        ensures
            state.secret() == encode_utf8(master_secret@),
    {
        let ghost secret = encode_utf8(master_secret@);
        let cache = KeyCache::new(master_secret);
        AppState { keys: RwLock::new(cache, Ghost(CacheOf { secret })) }
    }
}

/// The key of `channel_id` under the state's master secret. The first call
/// for a channel derives the key and caches it; every call, from whichever
/// thread, returns that same key, and never the key of another channel.
pub fn get_or_create_key(state: &AppState, channel_id: i64) -> (key: Vec<u8>)
    ensures
        key@ == channel_key(state.secret(), channel_id),
        key@.len() == KEY_LEN,
{
    let (mut cache, handle) = state.keys.acquire_write();
    let key = cache.get_or_create(channel_id);
    handle.release_write(cache);
    key
}

} // verus!
