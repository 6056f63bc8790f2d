//! The provider's public signing keys, kept for as long as the provider
//! allows and fetched anew when that time is nearly over.

use vstd::prelude::*;

verus! {

/// Seconds before the deadline at which the keys are fetched anew, so that
/// no key is used that is about to lapse.
pub const REFRESH_MARGIN: u64 = 1;

/// One public key of the provider: its identifier and the two components of
/// the key, as the provider writes them.
#[derive(Clone, Debug)]
pub struct KeyEntry {
    pub key_id: String,
    pub modulus: String,
    pub exponent: String,
}

/// What the provider's endpoint answered: the value of its caching
/// directive, if it sent one, and the keys in its body.
#[derive(Clone, Debug)]
pub struct KeyResponse {
    pub cache_control: Option<String>,
    pub keys: Vec<KeyEntry>,
}

/// Why the keys could not be renewed.
#[derive(Clone, Copy, Debug, PartialEq, Eq, Structural)]
pub enum KeyFetchFailed {
    /// The endpoint gave no answer that could be read.
    NoResponse,
    /// The answer does not say for how long the keys may be kept: it has no
    /// caching directive, or none with a positive lifetime that the clock
    /// can hold.
    NoLifetime,
}

/// The lifetime in seconds that the value of a caching directive grants,
/// if it can be read and grants one.
pub uninterp spec fn max_age_seconds(value: Seq<char>) -> Option<u64>;

/// `cache_control::CacheControl::from_value`, then the field `max_age` in
/// whole seconds: the lifetime that the directive `max-age` grants, or
/// nothing where the value cannot be read or has no such directive. The
/// outcome depends on the value alone.
#[verifier::external_body]
fn parse_max_age(value: &str) -> (out: Option<u64>)
    ensures
        out == max_age_seconds(value@),
{
    cache_control::CacheControl::from_value(value).and_then(|c| c.max_age).map(|d| d.as_secs())
}

/// The deadline that an answer received at `now` sets: `now` plus the
/// lifetime that the answer grants. There is none where there is no answer,
/// no caching directive, no positive lifetime, or where the deadline lies
/// beyond what the clock can hold.
pub open spec fn deadline_from(now: u64, response: Option<KeyResponse>) -> Option<u64> {
    match response {
        None => None,
        Some(r) => match r.cache_control {
            None => None,
            Some(value) => match max_age_seconds(value@) {
                None => None,
                Some(lifetime) => if lifetime > 0 && now + lifetime <= u64::MAX {
                    Some((now + lifetime) as u64)
                } else {
                    None
                },
            },
        },
    }
}

/// The place of the key with the given identifier: of the last one, where
/// several have it.
pub open spec fn key_index(keys: Seq<KeyEntry>, key_id: Seq<char>) -> Option<int>
    decreases keys.len(),
{
    if keys.len() == 0 {
        None
    } else if keys.last().key_id@ == key_id {
        Some(keys.len() - 1)
    } else {
        key_index(keys.drop_last(), key_id)
    }
}

/// Finds the key with the given identifier; the last one, where several
/// have it.
pub fn find_key<'a>(keys: &'a Vec<KeyEntry>, key_id: &str) -> (out: Option<&'a KeyEntry>)
    ensures
        match key_index(keys@, key_id@) {
            Some(i) => 0 <= i < keys@.len() && out == Some(&keys@[i]),
            None => out is None,
        },
{
    let mut i: usize = keys.len();
    assert(keys@.take(i as int) =~= keys@);
    while i > 0
        invariant
            i <= keys@.len(),
            key_index(keys@, key_id@) == key_index(keys@.take(i as int), key_id@),
        decreases i,
    {
        proof {
            let prefix = keys@.take(i as int);
            assert(prefix.last() == keys@[i - 1]);
            assert(prefix.drop_last() =~= keys@.take(i - 1));
        }
        if crate::text::str_eq(keys[i - 1].key_id.as_str(), key_id) {
            return Some(&keys[i - 1]);
        }
        i -= 1;
    }
    proof {
        assert(keys@.take(0).len() == 0);
    }
    None
}

/// The provider's keys as last fetched, with the deadline up to which they
/// may be used. It starts without keys and with a deadline that has passed,
/// so that the first use fetches.
#[derive(Debug)]
pub struct FirebaseClient {
    project_id: String,
    refresh_at: u64,
    keys: Vec<KeyEntry>,
}

impl FirebaseClient {
    /// The project that the keys are used for.
    pub closed spec fn project(&self) -> Seq<char> {
        self.project_id@
    }

    /// The time, in seconds since the epoch, up to which the keys may be
    /// used.
    pub closed spec fn deadline(&self) -> u64 {
        self.refresh_at
    }

    /// The keys that are held.
    pub closed spec fn key_set(&self) -> Seq<KeyEntry> {
        self.keys@
    }

    /// Whether a call at `now` has to fetch the keys first: from one margin
    /// before the deadline on.
    pub open spec fn stale_at(&self, now: u64) -> bool {
        now + REFRESH_MARGIN >= self.deadline()
    }

    /// A cache without keys whose deadline has passed.
    pub fn new(project_id: String) -> (out: FirebaseClient)
        ensures
            out.project() == project_id@,
            out.deadline() == 0,
            out.key_set().len() == 0,
            forall|now: u64| out.stale_at(now),
    {
        FirebaseClient { project_id, refresh_at: 0, keys: Vec::new() }
    }

    /// Whether a call at `now`, in seconds since the epoch, has to fetch the
    /// keys before it uses them.
    pub fn needs_sync(&self, now: u64) -> (out: bool)
        ensures
            out == self.stale_at(now),
    {
        now >= self.refresh_at.saturating_sub(REFRESH_MARGIN)
    }

    /// Puts fetched keys in the place of the held ones, given the lifetime
    /// that came with them: the deadline moves to `now` plus the lifetime.
    /// Without a lifetime, with one of zero seconds, or with a deadline
    /// beyond what the clock can hold, it fails and leaves keys and deadline
    /// as they were.
    pub fn renew(&mut self, now: u64, lifetime: Option<u64>, keys: Vec<KeyEntry>) -> (out: Result<
        (),
        KeyFetchFailed,
    >)
        ensures
            final(self).project() == old(self).project(),
            out is Ok <==> lifetime is Some && 0 < lifetime.unwrap() && now + lifetime.unwrap()
                <= u64::MAX,
            out is Ok ==> final(self).deadline() == now + lifetime.unwrap() && final(self).key_set()
                == keys@,
            out is Err ==> final(self).deadline() == old(self).deadline() && final(self).key_set()
                == old(self).key_set() && out == Err::<(), _>(KeyFetchFailed::NoLifetime),
    {
        let lifetime = match lifetime {
            Some(lifetime) => lifetime,
            None => { return Err(KeyFetchFailed::NoLifetime); },
        };
        if lifetime == 0 {
            return Err(KeyFetchFailed::NoLifetime);
        }
        let deadline = match now.checked_add(lifetime) {
            Some(deadline) => deadline,
            None => { return Err(KeyFetchFailed::NoLifetime); },
        };
        self.refresh_at = deadline;
        self.keys = keys;
        Ok(())
    }

    /// Takes in what a fetch at `now` brought. An answer with a caching
    /// directive that grants a positive lifetime replaces the keys and moves
    /// the deadline to `now` plus that lifetime. Anything else fails and
    /// leaves keys and deadline as they were.
    pub fn sync(&mut self, now: u64, response: Option<KeyResponse>) -> (out: Result<
        (),
        KeyFetchFailed,
    >)
        ensures
            final(self).project() == old(self).project(),
            match out {
                Ok(_) => {
                    &&& deadline_from(now, response) == Some(final(self).deadline())
                    &&& final(self).key_set() == response.unwrap().keys@
                },
                Err(e) => {
                    &&& deadline_from(now, response) is None
                    &&& final(self).deadline() == old(self).deadline()
                    &&& final(self).key_set() == old(self).key_set()
                    &&& e == if response is None {
                        KeyFetchFailed::NoResponse
                    } else {
                        KeyFetchFailed::NoLifetime
                    }
                },
            },
    {
        let response = match response {
            Some(r) => r,
            None => { return Err(KeyFetchFailed::NoResponse); },
        };
        let lifetime = match &response.cache_control {
            Some(value) => parse_max_age(value.as_str()),
            None => None,
        };
        self.renew(now, lifetime, response.keys)
    }

    /// The keys that are held.
    pub fn keys(&self) -> (out: &Vec<KeyEntry>)
        ensures
            out@ == self.key_set(),
    {
        &self.keys
    }
}

/// With keys whose deadline is `t`, no call before `t` less the margin
/// fetches, and every call from then on does.
pub proof fn lemma_fetch_window(client: FirebaseClient, now: u64)
    ensures
        now < client.deadline() - REFRESH_MARGIN ==> !client.stale_at(now),
        now >= client.deadline() - REFRESH_MARGIN ==> client.stale_at(now),
{
}

/// After keys with a lifetime have been taken in at `now`, a call at a
/// later time `t` fetches again only when `t` has reached the new deadline
/// less the margin: callers that waited for the fetch find fresh keys as
/// long as the lifetime is longer than the margin.
pub proof fn lemma_one_fetch(after: FirebaseClient, now: u64, lifetime: u64, t: u64)
    requires
        0 < lifetime,
        after.deadline() == now + lifetime,
    ensures
        after.stale_at(t) <==> t + REFRESH_MARGIN >= now + lifetime,
        lifetime > REFRESH_MARGIN && now <= t < now + lifetime - REFRESH_MARGIN ==> !after.stale_at(t),
{
}

} // verus!
