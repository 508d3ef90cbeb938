//! The store of links between Discord users and Steam accounts, as kept in
//! `bindings.json`.
//!
//! A store is modelled as the sequence of its entries, each a pair of the
//! Discord user id and the Steam id. Entries keep the order in which they
//! were added; a lookup answers with the first entry of the user.

use vstd::prelude::*;

verus! {

/// One link: a Discord user and the Steam id linked to them.
#[derive(Clone, Debug)]
pub struct SteamBinding {
    pub discord_id: u64,
    pub steam_id: String,
}

impl View for SteamBinding {
    type V = (u64, Seq<char>);

    open spec fn view(&self) -> (u64, Seq<char>) {
        (self.discord_id, self.steam_id@)
    }
}

/// The contents of `bindings.json`.
#[derive(Debug)]
pub struct Bindings {
    pub steam_bindings: Vec<SteamBinding>,
}

impl View for Bindings {
    type V = Seq<(u64, Seq<char>)>;

    open spec fn view(&self) -> Seq<(u64, Seq<char>)> {
        self.steam_bindings@.map_values(|b: SteamBinding| b@)
    }
}

/// The Steam id of the first entry of `user`, if any.
pub open spec fn lookup(s: Seq<(u64, Seq<char>)>, user: u64) -> Option<Seq<char>>
    decreases s.len(),
{
    if s.len() == 0 {
        None
    } else {
        let before = lookup(s.drop_last(), user);
        if before is Some {
            before
        } else if s.last().0 == user {
            Some(s.last().1)
        } else {
            None
        }
    }
}

/// Whether some entry belongs to `user`.
pub open spec fn is_bound(s: Seq<(u64, Seq<char>)>, user: u64) -> bool {
    exists|i: int| 0 <= i < s.len() && #[trigger] s[i].0 == user
}

/// The store after linking `user` to `steam_id`: unchanged when the user
/// already has an entry, else the new entry is added at the end.
pub open spec fn linked(s: Seq<(u64, Seq<char>)>, user: u64, steam_id: Seq<char>) -> Seq<
    (u64, Seq<char>),
> {
    if is_bound(s, user) {
        s
    } else {
        s.push((user, steam_id))
    }
}

/// Whether an entry belongs to someone other than `user`.
pub open spec fn not_of(user: u64) -> spec_fn((u64, Seq<char>)) -> bool {
    |b: (u64, Seq<char>)| b.0 != user
}

/// The store after unlinking `user`: every entry of `user` is gone, the
/// others stay in their order.
pub open spec fn unlinked(s: Seq<(u64, Seq<char>)>, user: u64) -> Seq<(u64, Seq<char>)> {
    s.filter(not_of(user))
}

/// No user has two entries.
pub open spec fn users_unique(s: Seq<(u64, Seq<char>)>) -> bool {
    forall|i: int, j: int| 0 <= i < j < s.len() ==> #[trigger] s[i].0 != #[trigger] s[j].0
}

pub proof fn lemma_lookup_some_iff_bound(s: Seq<(u64, Seq<char>)>, user: u64)
    ensures
        lookup(s, user) is Some <==> is_bound(s, user),
    decreases s.len(),
{
    if s.len() > 0 {
        let t = s.drop_last();
        lemma_lookup_some_iff_bound(t, user);
        if is_bound(t, user) {
            let i = choose|i: int| 0 <= i < t.len() && #[trigger] t[i].0 == user;
            assert(s[i].0 == user);
        }
        if is_bound(s, user) && !is_bound(t, user) {
            let i = choose|i: int| 0 <= i < s.len() && #[trigger] s[i].0 == user;
            if i < s.len() - 1 {
                assert(t[i].0 == user);
            }
        }
        if s.last().0 == user {
            assert(s[s.len() - 1].0 == user);
        }
    }
}

pub proof fn lemma_lookup_prefix(s: Seq<(u64, Seq<char>)>, k: int, user: u64)
    requires
        0 <= k <= s.len(),
        lookup(s.take(k), user) is Some,
    ensures
        lookup(s, user) == lookup(s.take(k), user),
    decreases s.len(),
{
    if k == s.len() {
        assert(s.take(k) =~= s);
    } else {
        let t = s.drop_last();
        assert(t.take(k) =~= s.take(k));
        lemma_lookup_prefix(t, k, user);
    }
}

pub proof fn lemma_lookup_unlinked_self(s: Seq<(u64, Seq<char>)>, user: u64)
    ensures
        lookup(unlinked(s, user), user) is None,
    decreases s.len(),
{
    reveal(Seq::filter);
    if s.len() > 0 {
        lemma_lookup_unlinked_self(s.drop_last(), user);
        let f = s.drop_last().filter(not_of(user));
        if not_of(user)(s.last()) {
            assert(unlinked(s, user) == f.push(s.last()));
            assert(f.push(s.last()).drop_last() =~= f);
        }
    }
}

pub proof fn lemma_lookup_unlinked_other(s: Seq<(u64, Seq<char>)>, user: u64, other: u64)
    requires
        other != user,
    ensures
        lookup(unlinked(s, user), other) == lookup(s, other),
    decreases s.len(),
{
    reveal(Seq::filter);
    if s.len() > 0 {
        lemma_lookup_unlinked_other(s.drop_last(), user, other);
        let f = s.drop_last().filter(not_of(user));
        if not_of(user)(s.last()) {
            assert(unlinked(s, user) == f.push(s.last()));
            assert(f.push(s.last()).drop_last() =~= f);
        }
    }
}

pub proof fn lemma_unlinked_unbound(s: Seq<(u64, Seq<char>)>, user: u64)
    requires
        !is_bound(s, user),
    ensures
        unlinked(s, user) == s,
    decreases s.len(),
{
    reveal(Seq::filter);
    if s.len() > 0 {
        let t = s.drop_last();
        assert(!is_bound(t, user)) by {
            if is_bound(t, user) {
                let i = choose|i: int| 0 <= i < t.len() && #[trigger] t[i].0 == user;
                assert(s[i].0 == user);
            }
        }
        lemma_unlinked_unbound(t, user);
        assert(s[s.len() - 1].0 != user);
        assert(t.push(s.last()) =~= s);
    }
}

/// Looking a user up after linking them gives the Steam id of their first
/// entry: the one just linked if they had none, else the one they had.
pub proof fn law_lookup_after_link(s: Seq<(u64, Seq<char>)>, user: u64, steam_id: Seq<char>)
    ensures
        lookup(linked(s, user, steam_id), user) == if is_bound(s, user) {
            lookup(s, user)
        } else {
            Some(steam_id)
        },
{
    lemma_lookup_some_iff_bound(s, user);
    if !is_bound(s, user) {
        assert(s.push((user, steam_id)).drop_last() =~= s);
    }
}

/// Linking a user who already has an entry leaves the store unchanged.
pub proof fn law_link_when_linked_is_noop(s: Seq<(u64, Seq<char>)>, user: u64, steam_id: Seq<char>)
    requires
        is_bound(s, user),
    ensures
        linked(s, user, steam_id) == s,
{
}

/// Linking one user does not change what any other user looks up.
pub proof fn law_link_keeps_others(
    s: Seq<(u64, Seq<char>)>,
    user: u64,
    steam_id: Seq<char>,
    other: u64,
)
    requires
        other != user,
    ensures
        lookup(linked(s, user, steam_id), other) == lookup(s, other),
{
    if !is_bound(s, user) {
        assert(s.push((user, steam_id)).drop_last() =~= s);
    }
}

/// After unlinking a user, looking them up finds nothing.
pub proof fn law_lookup_after_unlink(s: Seq<(u64, Seq<char>)>, user: u64)
    ensures
        lookup(unlinked(s, user), user) is None,
        !is_bound(unlinked(s, user), user),
{
    lemma_lookup_unlinked_self(s, user);
    lemma_lookup_some_iff_bound(unlinked(s, user), user);
}

/// Unlinking one user does not change what any other user looks up.
pub proof fn law_unlink_keeps_others(s: Seq<(u64, Seq<char>)>, user: u64, other: u64)
    requires
        other != user,
    ensures
        lookup(unlinked(s, user), other) == lookup(s, other),
{
    lemma_lookup_unlinked_other(s, user, other);
}

/// Unlinking a user who has no entry leaves the store unchanged.
pub proof fn law_unlink_when_unlinked_is_noop(s: Seq<(u64, Seq<char>)>, user: u64)
    requires
        !is_bound(s, user),
    ensures
        unlinked(s, user) == s,
{
    lemma_unlinked_unbound(s, user);
}

/// Unlinking a user right after linking them (when they had no entry)
/// gives back the store as it was.
pub proof fn law_unlink_undoes_link(s: Seq<(u64, Seq<char>)>, user: u64, steam_id: Seq<char>)
    requires
        !is_bound(s, user),
    ensures
        unlinked(linked(s, user, steam_id), user) == s,
{
    reveal(Seq::filter);
    let t = s.push((user, steam_id));
    assert(t.drop_last() =~= s);
    lemma_unlinked_unbound(s, user);
}

/// Linking keeps every user to at most one entry.
pub proof fn law_link_keeps_users_unique(s: Seq<(u64, Seq<char>)>, user: u64, steam_id: Seq<char>)
    requires
        users_unique(s),
    ensures
        users_unique(linked(s, user, steam_id)),
{
    if !is_bound(s, user) {
        let t = s.push((user, steam_id));
        assert forall|i: int, j: int| 0 <= i < j < t.len() implies #[trigger] t[i].0
            != #[trigger] t[j].0 by {
            if j == s.len() {
                assert(s[i].0 != user);
            } else {
                assert(s[i] == t[i] && s[j] == t[j]);
            }
        }
    }
}

/// Unlinking keeps every user to at most one entry.
pub proof fn law_unlink_keeps_users_unique(s: Seq<(u64, Seq<char>)>, user: u64)
    requires
        users_unique(s),
    ensures
        users_unique(unlinked(s, user)),
    decreases s.len(),
{
    reveal(Seq::filter);
    if s.len() > 0 {
        let t = s.drop_last();
        assert forall|i: int, j: int| 0 <= i < j < t.len() implies #[trigger] t[i].0
            != #[trigger] t[j].0 by {
            assert(s[i] == t[i] && s[j] == t[j]);
        }
        law_unlink_keeps_users_unique(t, user);
        let f = t.filter(not_of(user));
        if not_of(user)(s.last()) {
            let g = f.push(s.last());
            assert(unlinked(s, user) == g);
            assert forall|i: int, j: int| 0 <= i < j < g.len() implies #[trigger] g[i].0
                != #[trigger] g[j].0 by {
                if j == f.len() {
                    assert(f.contains(f[i]));
                    t.lemma_filter_contains_rev(not_of(user), f[i]);
                    let k = choose|k: int| 0 <= k < t.len() && t[k] == f[i];
                    assert(s[k] == t[k]);
                    assert(s[k].0 != s[s.len() - 1].0);
                } else {
                    assert(f[i] == g[i] && f[j] == g[j]);
                }
            }
        }
    }
}

impl Bindings {
    /// An empty store: what the bot writes when `bindings.json` is missing.
    pub fn new() -> (b: Bindings)
        ensures
            b@ == Seq::<(u64, Seq<char>)>::empty(),
    {
        let b = Bindings { steam_bindings: Vec::new() };
        assert(b@ =~= Seq::<(u64, Seq<char>)>::empty());
        b
    }

    /// The Steam id linked to `user`: that of the user's first entry.
    pub fn steam_id_of(&self, user: u64) -> (r: Option<String>)
        ensures
            r is Some <==> lookup(self@, user) is Some,
            r matches Some(id) ==> lookup(self@, user) == Some(id@),
    {
        let ghost s = self@;
        let n = self.steam_bindings.len();
        let mut i: usize = 0;
        while i < n
            invariant
                n == self.steam_bindings@.len(),
                s == self@,
                s.len() == n,
                i <= n,
                lookup(s.take(i as int), user) is None,
            decreases n - i,
        {
            let b = &self.steam_bindings[i];
            assert(s.take(i + 1).drop_last() =~= s.take(i as int));
            assert(s[i as int] == b@);
            if b.discord_id == user {
                proof {
                    lemma_lookup_prefix(s, i + 1, user);
                }
                return Some(b.steam_id.clone());
            }
            i = i + 1;
        }
        assert(s.take(n as int) =~= s);
        None
    }

    /// Whether `user` has an entry.
    pub fn is_linked(&self, user: u64) -> (r: bool)
        ensures
            r == is_bound(self@, user),
    {
        proof {
            lemma_lookup_some_iff_bound(self@, user);
        }
        self.steam_id_of(user).is_some()
    }

    /// Links `user` to `steam_id` unless the user already has an entry.
    /// Answers whether the entry was added.
    pub fn link(&mut self, user: u64, steam_id: String) -> (added: bool)
        ensures
            added == !is_bound(old(self)@, user),
            final(self)@ == linked(old(self)@, user, steam_id@),
    {
        if self.is_linked(user) {
            false
        } else {
            let ghost s = self@;
            self.steam_bindings.push(SteamBinding { discord_id: user, steam_id });
            assert(self@ =~= s.push((user, steam_id@)));
            true
        }
    }

    /// Removes every entry of `user`, keeping the others in their order.
    /// Answers whether there was one.
    pub fn unlink(&mut self, user: u64) -> (removed: bool)
        ensures
            removed == is_bound(old(self)@, user),
            final(self)@ == unlinked(old(self)@, user),
    {
        let ghost s = self@;
        let n = self.steam_bindings.len();
        let mut kept: Vec<SteamBinding> = Vec::new();
        let mut removed = false;
        let mut i: usize = 0;
        while i < n
            invariant
                n == self.steam_bindings@.len(),
                s == self@,
                s.len() == n,
                i <= n,
                kept@.map_values(|b: SteamBinding| b@) == s.take(i as int).filter(not_of(user)),
                removed == is_bound(s.take(i as int), user),
            decreases n - i,
        {
            let b = &self.steam_bindings[i];
            let ghost pre = s.take(i as int);
            let ghost post = s.take(i + 1);
            assert(post.drop_last() =~= pre);
            assert(post.last() == b@);
            assert(post[i as int] == b@);
            proof {
                reveal(Seq::filter);
            }
            if b.discord_id == user {
                removed = true;
                assert(post[i as int].0 == user);
            } else {
                let ghost k = kept@;
                kept.push(SteamBinding { discord_id: b.discord_id, steam_id: b.steam_id.clone() });
                assert(kept@.map_values(|b: SteamBinding| b@) =~= k.map_values(
                    |b: SteamBinding| b@,
                ).push(b@));
                assert(is_bound(post, user) == is_bound(pre, user)) by {
                    if is_bound(post, user) {
                        let j = choose|j: int| 0 <= j < post.len() && #[trigger] post[j].0 == user;
                        assert(pre[j].0 == user);
                    }
                    if is_bound(pre, user) {
                        let j = choose|j: int| 0 <= j < pre.len() && #[trigger] pre[j].0 == user;
                        assert(post[j].0 == user);
                    }
                }
            }
            i = i + 1;
        }
        assert(s.take(n as int) =~= s);
        self.steam_bindings = kept;
        removed
    }
}

} // verus!
