//! Prompt cache with a time-to-live on each entry.

use vstd::prelude::*;

use crate::chars::starts_with;
use crate::prompts::{same_chat_prompt, same_text_prompt, ChatPromptClient, TextPromptClient};
use crate::store::{without_prefix, KeyedStore};

verus! {

/// `std::time::Instant`, the clock reading that a cache measures ages from.
#[verifier::external_type_specification]
#[verifier::external_body]
pub struct ExInstant(std::time::Instant);

/// Trusted wrapper of `std::time::Instant::now`. Nothing is stated of the
/// result: it is the time.
#[verifier::external_body]
fn instant_now() -> std::time::Instant {
    std::time::Instant::now()
}

/// Trusted wrapper of `std::time::Instant::elapsed`, in whole milliseconds.
/// Nothing is stated of the result: it depends on the time of the call.
#[verifier::external_body]
fn millis_since(epoch: &std::time::Instant) -> u128 {
    epoch.elapsed().as_millis()
}

/// A cached value with the time it was stored (milliseconds since the cache
/// was created) and how long it stays fresh.
#[derive(Debug)]
pub struct CacheEntry<T> {
    /// The cached value.
    pub value: T,
    /// When the value was stored, in milliseconds since the cache's creation.
    pub inserted_at: u128,
    /// How long the value stays fresh, in milliseconds.
    pub ttl: u128,
}

/// The age of an entry at time `now` (zero for a reading before it was stored).
pub open spec fn age<T>(e: CacheEntry<T>, now: u128) -> int {
    if now >= e.inserted_at {
        now - e.inserted_at
    } else {
        0
    }
}

/// An entry is expired once its age has reached its time-to-live.
pub open spec fn expired<T>(e: CacheEntry<T>, now: u128) -> bool {
    age(e, now) >= e.ttl
}

impl<T> CacheEntry<T> {
    /// Whether the entry is expired at time `now` (milliseconds since the
    /// cache's creation).
    pub fn is_expired(&self, now: u128) -> (r: bool)
        ensures
            r == expired(*self, now),
    {
        let age = if now >= self.inserted_at {
            now - self.inserted_at
        } else {
            0
        };
        age >= self.ttl
    }
}

/// A map from keys to values, each entry fresh for a time-to-live after it
/// was stored. Expired entries are dropped when they are looked up.
pub struct TtlCache<T> {
    entries: KeyedStore<CacheEntry<T>>,
}

impl<T> View for TtlCache<T> {
    type V = Map<Seq<char>, CacheEntry<T>>;

    closed spec fn view(&self) -> Map<Seq<char>, CacheEntry<T>> {
        self.entries@
    }
}

impl<T> TtlCache<T> {
    /// An empty cache.
    pub fn new() -> (r: TtlCache<T>)
        ensures
            r@ == Map::<Seq<char>, CacheEntry<T>>::empty(),
    {
        TtlCache { entries: KeyedStore::new() }
    }

    /// The fresh value of `key` at time `now`; an expired entry of `key` is
    /// removed and not returned.
    pub fn get_at(&mut self, key: &str, now: u128) -> (r: Option<&T>)
        ensures
            old(self)@.contains_key(key@) && !expired(old(self)@[key@], now) ==> {
                &&& r == Some(&old(self)@[key@].value)
                &&& final(self)@ == old(self)@
            },
            old(self)@.contains_key(key@) && expired(old(self)@[key@], now) ==> {
                &&& r is None
                &&& final(self)@ == old(self)@.remove(key@)
            },
            !old(self)@.contains_key(key@) ==> r is None && final(self)@ == old(self)@,
    {
        let expired_now = match self.entries.get(key) {
            Some(e) => e.is_expired(now),
            None => {
                return None;
            },
        };
        if expired_now {
            self.entries.remove(key);
            None
        } else {
            match self.entries.get(key) {
                Some(e) => Some(&e.value),
                None => None,
            }
        }
    }

    /// The value of `key` if it is fresh at time `now`; unlike
    /// [`TtlCache::get_at`] an expired entry is left in place.
    pub fn peek_at(&self, key: &str, now: u128) -> (r: Option<&T>)
        ensures
            self@.contains_key(key@) && !expired(self@[key@], now) ==> r == Some(
                &self@[key@].value,
            ),
            !(self@.contains_key(key@) && !expired(self@[key@], now)) ==> r is None,
    {
        match self.entries.get(key) {
            Some(e) => if e.is_expired(now) {
                None
            } else {
                Some(&e.value)
            },
            None => None,
        }
    }

    /// The value of `key`, fresh or expired.
    pub fn get_any(&self, key: &str) -> (r: Option<&T>)
        ensures
            match r {
                Some(v) => self@.contains_key(key@) && *v == self@[key@].value,
                None => !self@.contains_key(key@),
            },
    {
        match self.entries.get(key) {
            Some(e) => Some(&e.value),
            None => None,
        }
    }

    /// Stores `value` under `key` at time `now`, fresh for `ttl`
    /// milliseconds, replacing any earlier entry of `key`.
    pub fn put_at(&mut self, key: String, value: T, now: u128, ttl: u128)
        ensures
            final(self)@ == old(self)@.insert(key@, CacheEntry { value, inserted_at: now, ttl }),
    {
        self.entries.insert(key, CacheEntry { value, inserted_at: now, ttl });
    }

    /// Removes every entry.
    pub fn clear(&mut self)
        ensures
            final(self)@ == Map::<Seq<char>, CacheEntry<T>>::empty(),
    {
        self.entries.clear();
    }

    /// Removes every entry whose key begins with `prefix`.
    pub fn invalidate_by_prefix(&mut self, prefix: &str)
        ensures
            final(self)@ == without_prefix(old(self)@, prefix@),
    {
        self.entries.remove_prefixed(prefix);
    }
}

/// A value stored at time `t` is served, unchanged, to every lookup made
/// before its time-to-live has passed.
pub proof fn lemma_fresh_entry_is_served<T>(
    m: Map<Seq<char>, CacheEntry<T>>,
    key: Seq<char>,
    value: T,
    t: u128,
    ttl: u128,
    now: u128,
)
    requires
        t <= now,
        now - t < ttl,
    ensures
        m.insert(key, CacheEntry { value, inserted_at: t, ttl }).contains_key(key),
        !expired(m.insert(key, CacheEntry { value, inserted_at: t, ttl })[key], now),
        m.insert(key, CacheEntry { value, inserted_at: t, ttl })[key].value == value,
{
}

/// A value stored at time `t` is no longer served once its time-to-live has
/// passed.
pub proof fn lemma_stale_entry_is_dropped<T>(
    m: Map<Seq<char>, CacheEntry<T>>,
    key: Seq<char>,
    value: T,
    t: u128,
    ttl: u128,
    now: u128,
)
    requires
        t <= now,
        now - t >= ttl,
    ensures
        expired(m.insert(key, CacheEntry { value, inserted_at: t, ttl })[key], now),
{
}

/// After invalidating by a prefix, no key beginning with it remains, and
/// every other entry is kept as it was.
pub proof fn lemma_invalidation_keeps_only_other_keys<T>(
    m: Map<Seq<char>, CacheEntry<T>>,
    prefix: Seq<char>,
    key: Seq<char>,
)
    ensures
        starts_with(key, prefix) ==> !without_prefix(m, prefix).contains_key(key),
        !starts_with(key, prefix) && m.contains_key(key) ==> without_prefix(m, prefix).contains_key(key)
            && without_prefix(m, prefix)[key] == m[key],
        !m.contains_key(key) ==> !without_prefix(m, prefix).contains_key(key),
{
}

/// Default time-to-live of cached prompts: 60 seconds.
pub const DEFAULT_CACHE_TTL_SECS: u64 = 60;

/// Prompt cache with a time-to-live on each entry.
///
/// Text and chat prompts are kept apart. `get_text` and `get_chat` drop an
/// expired entry when they meet it; `fresh_text` and `fresh_chat` leave it in
/// place, and the `*_expired` lookups still return it, for use as a fallback
/// when the API cannot be reached.
pub struct PromptCache {
    text_entries: TtlCache<TextPromptClient>,
    chat_entries: TtlCache<ChatPromptClient>,
    default_ttl: u128,
    epoch: std::time::Instant,
}

impl PromptCache {
    /// The cached text prompts.
    pub closed spec fn text_view(&self) -> Map<Seq<char>, CacheEntry<TextPromptClient>> {
        self.text_entries@
    }

    /// The cached chat prompts.
    pub closed spec fn chat_view(&self) -> Map<Seq<char>, CacheEntry<ChatPromptClient>> {
        self.chat_entries@
    }

    /// The time-to-live of new entries, in milliseconds.
    pub closed spec fn ttl(&self) -> u128 {
        self.default_ttl
    }

    /// An empty cache whose entries live `default_ttl_secs` seconds.
    pub fn new(default_ttl_secs: u64) -> (r: PromptCache)
        ensures
            r.text_view() == Map::<Seq<char>, CacheEntry<TextPromptClient>>::empty(),
            r.chat_view() == Map::<Seq<char>, CacheEntry<ChatPromptClient>>::empty(),
            r.ttl() == default_ttl_secs * 1000,
    {
        let ttl: u128 = default_ttl_secs as u128 * 1000;
        PromptCache {
            text_entries: TtlCache::new(),
            chat_entries: TtlCache::new(),
            default_ttl: ttl,
            epoch: instant_now(),
        }
    }

    /// The text prompt cached under `key`, if it exists and has not expired;
    /// an expired entry is removed. The age of the entry is measured now.
    pub fn get_text(&mut self, key: &str) -> (r: Option<TextPromptClient>)
        ensures
            final(self).ttl() == old(self).ttl(),
            final(self).chat_view() == old(self).chat_view(),
            r matches Some(p) ==> old(self).text_view().contains_key(key@) && same_text_prompt(
                p,
                old(self).text_view()[key@].value,
            ) && final(self).text_view() == old(self).text_view(),
            r is None ==> final(self).text_view() == old(self).text_view().remove(key@),
            !old(self).text_view().contains_key(key@) ==> r is None,
    {
        let now = millis_since(&self.epoch);
        let r = match self.text_entries.get_at(key, now) {
            Some(p) => Some(p.duplicate()),
            None => None,
        };
        proof {
            if !old(self).text_view().contains_key(key@) {
                assert(old(self).text_view().remove(key@) =~= old(self).text_view());
            }
        }
        r
    }

    /// The text prompt cached under `key` if it has not expired, measured
    /// now. An expired entry is left in place, so that it can still be
    /// served as a fallback when the request that follows fails.
    pub fn fresh_text(&self, key: &str) -> (r: Option<TextPromptClient>)
        ensures
            crate::prompt_fetch::fresh_text_answer(*self, key@, r),
    {
        self.fresh_text_at(key, millis_since(&self.epoch))
    }

    /// The text prompt cached under `key` if it has not expired at time
    /// `now` (milliseconds since the cache was created, the unit of its
    /// stamps and time-to-live): served while its age `now - inserted_at` is
    /// below its time-to-live, and not from the moment the age reaches it.
    /// An expired entry is left in place.
    pub fn fresh_text_at(&self, key: &str, now: u128) -> (r: Option<TextPromptClient>)
        ensures
            crate::prompt_fetch::fresh_text_answer(*self, key@, r),
            r is Some ==> self.text_view().contains_key(key@) && (now < self.text_view()[key@].inserted_at
                || now - self.text_view()[key@].inserted_at < self.text_view()[key@].ttl),
            self.text_view().contains_key(key@) && self.text_view()[key@].inserted_at <= now && now
                - self.text_view()[key@].inserted_at >= self.text_view()[key@].ttl ==> r is None,
            self.text_view().contains_key(key@) && !expired(self.text_view()[key@], now) ==> r is Some,
    {
        match self.text_entries.peek_at(key, now) {
            Some(p) => Some(p.duplicate()),
            None => None,
        }
    }

    /// Stores a text prompt under `key`, stamped with the current time.
    pub fn put_text(&mut self, key: &str, prompt: TextPromptClient)
        ensures
            final(self).ttl() == old(self).ttl(),
            final(self).chat_view() == old(self).chat_view(),
            final(self).text_view().dom() == old(self).text_view().dom().insert(key@),
            final(self).text_view()[key@].value == prompt,
            final(self).text_view()[key@].ttl == old(self).ttl(),
            forall|k: Seq<char>| k != key@ && #[trigger] old(self).text_view().contains_key(k)
                ==> final(self).text_view()[k] == old(self).text_view()[k],
    {
        let now = millis_since(&self.epoch);
        self.text_entries.put_at(crate::chars::owned(key), prompt, now, self.default_ttl);
    }

    /// The text prompt cached under `key`, even if it has expired.
    pub fn get_text_expired(&self, key: &str) -> (r: Option<TextPromptClient>)
        ensures
            match r {
                Some(p) => self.text_view().contains_key(key@) && same_text_prompt(
                    p,
                    self.text_view()[key@].value,
                ),
                None => !self.text_view().contains_key(key@),
            },
    {
        match self.text_entries.get_any(key) {
            Some(p) => Some(p.duplicate()),
            None => None,
        }
    }

    /// The chat prompt cached under `key`, if it exists and has not expired;
    /// an expired entry is removed. The age of the entry is measured now.
    pub fn get_chat(&mut self, key: &str) -> (r: Option<ChatPromptClient>)
        ensures
            final(self).ttl() == old(self).ttl(),
            final(self).text_view() == old(self).text_view(),
            r matches Some(p) ==> old(self).chat_view().contains_key(key@) && same_chat_prompt(
                p,
                old(self).chat_view()[key@].value,
            ) && final(self).chat_view() == old(self).chat_view(),
            r is None ==> final(self).chat_view() == old(self).chat_view().remove(key@),
            !old(self).chat_view().contains_key(key@) ==> r is None,
    {
        let now = millis_since(&self.epoch);
        let r = match self.chat_entries.get_at(key, now) {
            Some(p) => Some(p.duplicate()),
            None => None,
        };
        proof {
            if !old(self).chat_view().contains_key(key@) {
                assert(old(self).chat_view().remove(key@) =~= old(self).chat_view());
            }
        }
        r
    }

    /// The chat prompt cached under `key` if it has not expired, measured
    /// now. An expired entry is left in place, so that it can still be
    /// served as a fallback when the request that follows fails.
    pub fn fresh_chat(&self, key: &str) -> (r: Option<ChatPromptClient>)
        ensures
            crate::prompt_fetch::fresh_chat_answer(*self, key@, r),
    {
        self.fresh_chat_at(key, millis_since(&self.epoch))
    }

    /// The chat prompt cached under `key` if it has not expired at time
    /// `now` (milliseconds since the cache was created, the unit of its
    /// stamps and time-to-live): served while its age `now - inserted_at` is
    /// below its time-to-live, and not from the moment the age reaches it.
    /// An expired entry is left in place.
    pub fn fresh_chat_at(&self, key: &str, now: u128) -> (r: Option<ChatPromptClient>)
        ensures
            crate::prompt_fetch::fresh_chat_answer(*self, key@, r),
            r is Some ==> self.chat_view().contains_key(key@) && (now < self.chat_view()[key@].inserted_at
                || now - self.chat_view()[key@].inserted_at < self.chat_view()[key@].ttl),
            self.chat_view().contains_key(key@) && self.chat_view()[key@].inserted_at <= now && now
                - self.chat_view()[key@].inserted_at >= self.chat_view()[key@].ttl ==> r is None,
            self.chat_view().contains_key(key@) && !expired(self.chat_view()[key@], now) ==> r is Some,
    {
        match self.chat_entries.peek_at(key, now) {
            Some(p) => Some(p.duplicate()),
            None => None,
        }
    }

    /// Stores a chat prompt under `key`, stamped with the current time.
    pub fn put_chat(&mut self, key: &str, prompt: ChatPromptClient)
        ensures
            final(self).ttl() == old(self).ttl(),
            final(self).text_view() == old(self).text_view(),
            final(self).chat_view().dom() == old(self).chat_view().dom().insert(key@),
            final(self).chat_view()[key@].value == prompt,
            final(self).chat_view()[key@].ttl == old(self).ttl(),
            forall|k: Seq<char>| k != key@ && #[trigger] old(self).chat_view().contains_key(k)
                ==> final(self).chat_view()[k] == old(self).chat_view()[k],
    {
        let now = millis_since(&self.epoch);
        self.chat_entries.put_at(crate::chars::owned(key), prompt, now, self.default_ttl);
    }

    /// The chat prompt cached under `key`, even if it has expired.
    pub fn get_chat_expired(&self, key: &str) -> (r: Option<ChatPromptClient>)
        ensures
            match r {
                Some(p) => self.chat_view().contains_key(key@) && same_chat_prompt(
                    p,
                    self.chat_view()[key@].value,
                ),
                None => !self.chat_view().contains_key(key@),
            },
    {
        match self.chat_entries.get_any(key) {
            Some(p) => Some(p.duplicate()),
            None => None,
        }
    }

    /// Remove all entries from the cache.
    pub fn clear(&mut self)
        ensures
            final(self).ttl() == old(self).ttl(),
            final(self).text_view() == Map::<Seq<char>, CacheEntry<TextPromptClient>>::empty(),
            final(self).chat_view() == Map::<Seq<char>, CacheEntry<ChatPromptClient>>::empty(),
    {
        self.text_entries.clear();
        self.chat_entries.clear();
    }

    /// Remove all entries whose key starts with the given prefix.
    pub fn invalidate_by_prefix(&mut self, prefix: &str)
        ensures
            final(self).ttl() == old(self).ttl(),
            final(self).text_view() == without_prefix(old(self).text_view(), prefix@),
            final(self).chat_view() == without_prefix(old(self).chat_view(), prefix@),
    {
        self.text_entries.invalidate_by_prefix(prefix);
        self.chat_entries.invalidate_by_prefix(prefix);
    }
}

} // verus!
