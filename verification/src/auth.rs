//! The in-memory registry of session tokens.
//!
//! The registry maps each logged-in user to the tokens issued to them. It is
//! pure bookkeeping over plain values; reading and writing whatever carries
//! the tokens (cookies, headers) is the caller's business.

use vstd::prelude::*;

use crate::text::contains_str;

verus! {

/// Why a request fails user authentication.
#[derive(Clone, Copy, Debug, PartialEq, Eq, Structural)]
pub enum UserAuthError {
    /// The request carries no user id.
    NoUserId,
    /// The request carries no authentication token.
    NoAuthToken,
    /// The token is not registered for the user.
    Invalid,
}

/// The token value the registry currently issues: a fixed stand-in until
/// real token generation arrives, so every login yields the same value.
pub open spec fn issued_token() -> Seq<char> {
    "token"@
}

/// Proof that a request carried a registered session: present exactly when
/// the request's user id and token passed the registry check.
#[derive(Clone, Copy, Debug, PartialEq, Eq, Structural)]
pub struct UserAuth;

impl UserAuth {
    /// The decision behind cookie-based request authentication: the request
    /// must carry a user id and a token, and the token must be registered
    /// for that user. Each error names the first requirement that failed.
    pub fn authenticate(
        user_id: Option<&str>,
        auth_token: Option<&str>,
        registry: &AuthTokens,
    ) -> (outcome: Result<UserAuth, UserAuthError>)
        ensures
            match outcome {
                Ok(_) => user_id is Some && auth_token is Some && registry@.contains_key(
                    user_id->0@,
                ) && registry@[user_id->0@].contains(auth_token->0@),
                Err(UserAuthError::NoUserId) => user_id is None,
                Err(UserAuthError::NoAuthToken) => user_id is Some && auth_token is None,
                Err(UserAuthError::Invalid) => user_id is Some && auth_token is Some && !(
                registry@.contains_key(user_id->0@) && registry@[user_id->0@].contains(
                    auth_token->0@,
                )),
            },
    {
        let uid = match user_id {
            Some(uid) => uid,
            None => {
                return Err(UserAuthError::NoUserId);
            },
        };
        let token = match auth_token {
            Some(token) => token,
            None => {
                return Err(UserAuthError::NoAuthToken);
            },
        };
        if registry.check_for(uid, token) {
            Ok(UserAuth)
        } else {
            Err(UserAuthError::Invalid)
        }
    }
}

/// The tokens one user is logged in under.
#[derive(Clone, Debug)]
struct UserTokens {
    user_id: String,
    tokens: Vec<String>,
}

/// Whether no two entries belong to the same user.
spec fn distinct_user_ids(entries: Seq<UserTokens>) -> bool {
    forall|i: int, j: int|
        0 <= i < j < entries.len() ==> (#[trigger] entries[i]).user_id@ != (
        #[trigger] entries[j]).user_id@
}

/// The map an entry list denotes: each user to their tokens.
spec fn entries_map(entries: Seq<UserTokens>) -> Map<Seq<char>, Seq<Seq<char>>>
    decreases entries.len(),
{
    if entries.len() == 0 {
        Map::empty()
    } else {
        entries_map(entries.drop_last()).insert(
            entries.last().user_id@,
            entries.last().tokens.deep_view(),
        )
    }
}

/// A key held by some entry is in the map, bound to that entry's tokens.
proof fn lemma_entries_map_index(entries: Seq<UserTokens>, i: int)
    requires
        distinct_user_ids(entries),
        0 <= i < entries.len(),
    ensures
        entries_map(entries).contains_key(entries[i].user_id@),
        entries_map(entries)[entries[i].user_id@] == entries[i].tokens.deep_view(),
    decreases entries.len(),
{
    if i < entries.len() - 1 {
        assert(distinct_user_ids(entries.drop_last())) by {
            assert(forall|a: int|
                0 <= a < entries.drop_last().len() ==> entries.drop_last()[a]
                    == #[trigger] entries[a]);
        }
        lemma_entries_map_index(entries.drop_last(), i);
        assert(entries[i].user_id@ != entries.last().user_id@);
    }
}

/// A key held by no entry is not in the map.
proof fn lemma_entries_map_absent(entries: Seq<UserTokens>, key: Seq<char>)
    requires
        forall|i: int| 0 <= i < entries.len() ==> (#[trigger] entries[i]).user_id@ != key,
    ensures
        !entries_map(entries).contains_key(key),
    decreases entries.len(),
{
    if entries.len() > 0 {
        assert(forall|a: int|
            0 <= a < entries.drop_last().len() ==> entries.drop_last()[a] == #[trigger] entries[a]);
        lemma_entries_map_absent(entries.drop_last(), key);
        assert(entries.last() == entries[entries.len() - 1]);
    }
}

/// Removing one entry removes exactly that user's binding from the map.
proof fn lemma_entries_map_remove(entries: Seq<UserTokens>, i: int)
    requires
        distinct_user_ids(entries),
        0 <= i < entries.len(),
    ensures
        entries_map(entries.remove(i)) == entries_map(entries).remove(entries[i].user_id@),
    decreases entries.len(),
{
    let key = entries[i].user_id@;
    if i == entries.len() - 1 {
        assert(entries.remove(i) =~= entries.drop_last());
        assert(forall|a: int|
            0 <= a < entries.drop_last().len() ==> entries.drop_last()[a] == #[trigger] entries[a]);
        lemma_entries_map_absent(entries.drop_last(), key);
        assert(entries_map(entries.drop_last()) =~= entries_map(entries).remove(key));
    } else {
        let shorter = entries.remove(i);
        assert(shorter.drop_last() =~= entries.drop_last().remove(i));
        assert(shorter.last() == entries.last());
        assert(distinct_user_ids(entries.drop_last())) by {
            assert(forall|a: int|
                0 <= a < entries.drop_last().len() ==> entries.drop_last()[a]
                    == #[trigger] entries[a]);
        }
        lemma_entries_map_remove(entries.drop_last(), i);
        assert(entries.last().user_id@ != key);
        assert(entries_map(shorter) =~= entries_map(entries).remove(key));
    }
}

/// Registry of the tokens under which each user is logged in.
#[derive(Debug)]
pub struct AuthTokens {
    user_tokens: Vec<UserTokens>,
}

impl View for AuthTokens {
    type V = Map<Seq<char>, Seq<Seq<char>>>;

    /// Which tokens each logged-in user holds.
    closed spec fn view(&self) -> Map<Seq<char>, Seq<Seq<char>>> {
        entries_map(self.user_tokens@)
    }
}

impl AuthTokens {
    /// No two entries belong to the same user.
    #[verifier::type_invariant]
    spec fn users_distinct(self) -> bool {
        distinct_user_ids(self.user_tokens@)
    }

    /// Creates an empty registry: nobody is logged in.
    pub fn new() -> (registry: AuthTokens)
        ensures
            registry@ == Map::<Seq<char>, Seq<Seq<char>>>::empty(),
    {
        AuthTokens { user_tokens: Vec::new() }
    }

    /// The index of the entry for `user_id`, if the user has one.
    fn find_user(&self, user_id: &str) -> (found: Option<usize>)
        ensures
            match found {
                Some(i) => i < self.user_tokens@.len() && self.user_tokens@[i as int].user_id@
                    == user_id@,
                None => forall|i: int|
                    0 <= i < self.user_tokens@.len() ==> (
                    #[trigger] self.user_tokens@[i]).user_id@ != user_id@,
            },
    {
        let wanted: String = user_id.to_owned();
        let mut i: usize = 0;
        while i < self.user_tokens.len()
            invariant
                i <= self.user_tokens@.len(),
                wanted@ == user_id@,
                forall|j: int|
                    0 <= j < i ==> (#[trigger] self.user_tokens@[j]).user_id@ != user_id@,
            decreases self.user_tokens@.len() - i,
        {
            if self.user_tokens[i].user_id == wanted {
                return Some(i);
            }
            i = i + 1;
        }
        None
    }

    /// Ensures the user is logged in and returns their token. A user who
    /// already holds tokens keeps them as they are; one who holds none is
    /// given the issued token.
    pub fn add_token(&mut self, user_id: &str) -> (token: String)
        ensures
            token@ == issued_token(),
            final(self)@ == if old(self)@.contains_key(user_id@) {
                old(self)@
            } else {
                old(self)@.insert(user_id@, seq![issued_token()])
            },
    {
        proof {
            use_type_invariant(&*self);
        }
        let found = self.find_user(user_id);
        match found {
            Some(i) => {
                proof {
                    lemma_entries_map_index(self.user_tokens@, i as int);
                }
            },
            None => {
                proof {
                    lemma_entries_map_absent(self.user_tokens@, user_id@);
                }
                let mut tokens: Vec<String> = Vec::new();
                tokens.push("token".to_owned());
                let entry = UserTokens { user_id: user_id.to_owned(), tokens };
                let ghost before = self.user_tokens@;
                let mut entries: Vec<UserTokens> = Vec::new();
                core::mem::swap(&mut entries, &mut self.user_tokens);
                entries.push(entry);
                proof {
                    assert(distinct_user_ids(entries@)) by {
                        assert(forall|a: int|
                            0 <= a < before.len() ==> entries@[a] == #[trigger] before[a]);
                    }
                    assert(entries@.drop_last() =~= before);
                    assert(entries@.last().tokens.deep_view() =~= seq![issued_token()]);
                }
                self.user_tokens = entries;
            },
        }
        "token".to_owned()
    }

    /// Logs the user out, dropping every token they held. Returns whether
    /// the user was logged in at all.
    pub fn remove_token(&mut self, user_id: &str) -> (removed: bool)
        ensures
            removed == old(self)@.contains_key(user_id@),
            final(self)@ == old(self)@.remove(user_id@),
    {
        proof {
            use_type_invariant(&*self);
        }
        let found = self.find_user(user_id);
        match found {
            Some(i) => {
                let ghost before = self.user_tokens@;
                proof {
                    lemma_entries_map_index(before, i as int);
                    lemma_entries_map_remove(before, i as int);
                }
                let mut entries: Vec<UserTokens> = Vec::new();
                core::mem::swap(&mut entries, &mut self.user_tokens);
                entries.remove(i);
                proof {
                    assert(entries@ =~= before.remove(i as int));
                    assert(distinct_user_ids(entries@)) by {
                        assert forall|a: int, b: int|
                            0 <= a < b < entries@.len() implies (
                        #[trigger] entries@[a]).user_id@ != (#[trigger] entries@[b]).user_id@ by {
                            let a_orig = if a < i { a } else { a + 1 };
                            let b_orig = if b < i { b } else { b + 1 };
                            assert(entries@[a] == before[a_orig]);
                            assert(entries@[b] == before[b_orig]);
                        }
                    }
                }
                self.user_tokens = entries;
                true
            },
            None => {
                proof {
                    lemma_entries_map_absent(self.user_tokens@, user_id@);
                    assert(self@.remove(user_id@) =~= self@);
                }
                false
            },
        }
    }

    /// Whether `token` is registered for `user_id`.
    pub fn check_for(&self, user_id: &str, token: &str) -> (ok: bool)
        ensures
            ok == (self@.contains_key(user_id@) && self@[user_id@].contains(token@)),
    {
        proof {
            use_type_invariant(&*self);
        }
        match self.find_user(user_id) {
            Some(i) => {
                proof {
                    lemma_entries_map_index(self.user_tokens@, i as int);
                }
                contains_str(&self.user_tokens[i].tokens, token)
            },
            None => {
                proof {
                    lemma_entries_map_absent(self.user_tokens@, user_id@);
                }
                false
            },
        }
    }
}

} // verus!
