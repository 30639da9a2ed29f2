//! Shared building blocks: account identifiers and a verified key/value table.
use vstd::prelude::*;

verus! {

/// A 32-byte account identifier, held as four little-endian 64-bit words.
#[derive(Clone, Copy, Debug, PartialEq, Eq, Structural)]
pub struct AccountId {
    pub w0: u64,
    pub w1: u64,
    pub w2: u64,
    pub w3: u64,
}

impl AccountId {
    /// The account whose 32 bytes are all `b`.
    pub fn from_byte(b: u8) -> (r: AccountId)
        ensures
            r.w0 == r.w1 && r.w1 == r.w2 && r.w2 == r.w3,
            r.w0 == (b as u64) * 0x0101_0101_0101_0101u64,
    {
        let w: u64 = (b as u64) * 0x0101_0101_0101_0101u64;
        AccountId { w0: w, w1: w, w2: w, w3: w }
    }

    /// Builds an identifier from its four words.
    pub fn from_words(w0: u64, w1: u64, w2: u64, w3: u64) -> (r: AccountId)
        ensures
            r == (AccountId { w0, w1, w2, w3 }),
    {
        AccountId { w0, w1, w2, w3 }
    }
}

/// Keys of a [`Table`]: values whose executable equality agrees with spec equality.
pub trait TableKey: Sized {
    fn same(&self, other: &Self) -> (r: bool)
        ensures
            r == (*self == *other),
    ;
}

impl TableKey for u64 {
    fn same(&self, other: &Self) -> (r: bool) {
        *self == *other
    }
}

impl TableKey for u32 {
    fn same(&self, other: &Self) -> (r: bool) {
        *self == *other
    }
}

impl TableKey for AccountId {
    fn same(&self, other: &Self) -> (r: bool) {
        *self == *other
    }
}

impl TableKey for (u64, AccountId) {
    fn same(&self, other: &Self) -> (r: bool) {
        self.0 == other.0 && self.1 == other.1
    }
}

impl TableKey for (AccountId, u64) {
    fn same(&self, other: &Self) -> (r: bool) {
        self.0 == other.0 && self.1 == other.1
    }
}

impl TableKey for (u64, u64) {
    fn same(&self, other: &Self) -> (r: bool) {
        self.0 == other.0 && self.1 == other.1
    }
}

impl TableKey for (AccountId, AccountId) {
    fn same(&self, other: &Self) -> (r: bool) {
        self.0 == other.0 && self.1 == other.1
    }
}

/// A finite map from keys to values, stored as a list of distinct keys.
#[verifier::reject_recursive_types(K)]
pub struct Table<K, V> {
    entries: Vec<(K, V)>,
    contents: Ghost<Map<K, V>>,
}

impl<K: TableKey, V> Table<K, V> {
    /// What the table holds.
    pub closed spec fn view(&self) -> Map<K, V> {
        self.contents@
    }

    /// The table's internal invariant.
    pub closed spec fn wf(&self) -> bool {
        let s = self.entries@;
        let m = self.contents@;
        &&& forall|i: int, j: int| 0 <= i < j < s.len() ==> s[i].0 != s[j].0
        &&& forall|i: int| 0 <= i < s.len() ==> #[trigger] m.contains_key(s[i].0) && m[s[i].0]
            == s[i].1
        &&& forall|k: K| #[trigger]
            m.contains_key(k) ==> exists|i: int| 0 <= i < s.len() && s[i].0 == k
    }

    /// An empty table.
    pub fn new() -> (t: Self)
        ensures
            t.wf(),
            t@ == Map::<K, V>::empty(),
    {
        Table { entries: Vec::new(), contents: Ghost(Map::empty()) }
    }

    /// The number of keys present.
    pub fn len(&self) -> (n: usize)
        requires
            self.wf(),
        ensures
            n == self@.dom().len(),
    {
        proof {
            self.lemma_len();
        }
        self.entries.len()
    }

    /// A well-formed table holds finitely many keys.
    pub proof fn lemma_finite(&self)
        requires
            self.wf(),
        ensures
            self@.dom().finite(),
    {
        self.lemma_len();
    }

    proof fn lemma_len(&self)
        requires
            self.wf(),
        ensures
            self@.dom().finite(),
            self@.dom().len() == self.entries@.len(),
        decreases self.entries@.len(),
    {
        let s = self.entries@;
        let keys = s.map_values(|e: (K, V)| e.0);
        assert(keys.no_duplicates()) by {
            assert forall|i: int, j: int|
                0 <= i < keys.len() && 0 <= j < keys.len() && i != j implies keys[i] != keys[j] by {
                if i < j {
                } else {
                }
            }
        }
        assert(self@.dom() =~= keys.to_set()) by {
            assert forall|k: K| self@.dom().contains(k) implies keys.to_set().contains(k) by {
                let i = choose|i: int| 0 <= i < s.len() && s[i].0 == k;
                assert(keys[i] == k);
            }
            assert forall|k: K| keys.to_set().contains(k) implies self@.dom().contains(k) by {
                let i = choose|i: int| 0 <= i < keys.len() && keys[i] == k;
                assert(self@.contains_key(s[i].0));
            }
        }
        keys.unique_seq_to_set();
    }

    fn find(&self, k: &K) -> (r: Option<usize>)
        requires
            self.wf(),
        ensures
            match r {
                Some(i) => i < self.entries@.len() && self.entries@[i as int].0 == *k
                    && self@.contains_key(*k),
                None => !self@.contains_key(*k),
            },
    {
        let n = self.entries.len();
        let mut i: usize = 0;
        while i < n
            invariant
                self.wf(),
                n == self.entries@.len(),
                i <= n,
                forall|j: int| 0 <= j < i ==> self.entries@[j].0 != *k,
            decreases n - i,
        {
            if self.entries[i].0.same(k) {
                assert(self.contents@.contains_key(self.entries@[i as int].0));
                return Some(i);
            }
            i = i + 1;
        }
        assert(!self@.contains_key(*k)) by {
            if self@.contains_key(*k) {
                let j = choose|j: int| 0 <= j < self.entries@.len() && self.entries@[j].0 == *k;
                assert(self.entries@[j].0 != *k);
            }
        }
        None
    }

    /// Whether `k` is present.
    pub fn contains(&self, k: &K) -> (r: bool)
        requires
            self.wf(),
        ensures
            r == self@.contains_key(*k),
    {
        match self.find(k) {
            Some(_) => true,
            None => false,
        }
    }

    /// The value stored under `k`, if any.
    pub fn get(&self, k: &K) -> (r: Option<&V>)
        requires
            self.wf(),
        ensures
            match r {
                Some(v) => self@.contains_key(*k) && *v == self@[*k],
                None => !self@.contains_key(*k),
            },
    {
        match self.find(k) {
            Some(i) => {
                let e = &self.entries[i];
                assert(self@[*k] == self.entries@[i as int].1);
                Some(&e.1)
            },
            None => None,
        }
    }

    /// Stores `v` under `k`, replacing what was there.
    pub fn insert(&mut self, k: K, v: V)
        requires
            old(self).wf(),
        ensures
            final(self).wf(),
            final(self)@ == old(self)@.insert(k, v),
    {
        let ghost m0 = self.contents@;
        let ghost s0 = self.entries@;
        match self.find(&k) {
            Some(i) => {
                self.entries.set(i, (k, v));
                self.contents = Ghost(m0.insert(k, v));
                let ghost s = self.entries@;
                assert forall|j: int| 0 <= j < s.len() implies #[trigger] self.contents@.contains_key(
                    s[j].0,
                ) && self.contents@[s[j].0] == s[j].1 by {
                    if j != i {
                        assert(s[j] == s0[j]);
                        assert(m0.contains_key(s0[j].0));
                    }
                }
                assert forall|kk: K| #[trigger]
                    self.contents@.contains_key(kk) implies exists|j: int|
                    0 <= j < s.len() && s[j].0 == kk by {
                    if kk == k {
                        assert(s[i as int].0 == kk);
                    } else {
                        let j = choose|j: int| 0 <= j < s0.len() && s0[j].0 == kk;
                        assert(s[j].0 == kk);
                    }
                }
            },
            None => {
                self.entries.push((k, v));
                self.contents = Ghost(m0.insert(k, v));
                let ghost s = self.entries@;
                assert forall|j: int| 0 <= j < s.len() implies #[trigger] self.contents@.contains_key(
                    s[j].0,
                ) && self.contents@[s[j].0] == s[j].1 by {
                    if j < s0.len() {
                        assert(s[j] == s0[j]);
                        assert(m0.contains_key(s0[j].0));
                    }
                }
                assert forall|a: int, b: int| 0 <= a < b < s.len() implies s[a].0 != s[b].0 by {
                    if b == s0.len() {
                        assert(m0.contains_key(s0[a].0));
                    } else {
                        assert(s[a] == s0[a] && s[b] == s0[b]);
                    }
                }
                assert forall|kk: K| #[trigger]
                    self.contents@.contains_key(kk) implies exists|j: int|
                    0 <= j < s.len() && s[j].0 == kk by {
                    if kk == k {
                        assert(s[s0.len() as int].0 == kk);
                    } else {
                        let j = choose|j: int| 0 <= j < s0.len() && s0[j].0 == kk;
                        assert(s[j].0 == kk);
                    }
                }
            },
        }
    }

    /// Removes `k`, returning what was stored under it.
    pub fn remove(&mut self, k: &K) -> (r: Option<V>)
        requires
            old(self).wf(),
        ensures
            final(self).wf(),
            final(self)@ == old(self)@.remove(*k),
            match r {
                Some(v) => old(self)@.contains_key(*k) && v == old(self)@[*k],
                None => !old(self)@.contains_key(*k),
            },
    {
        let ghost m0 = self.contents@;
        let ghost s0 = self.entries@;
        match self.find(k) {
            Some(i) => {
                let e = self.entries.remove(i);
                self.contents = Ghost(m0.remove(*k));
                let ghost s = self.entries@;
                assert(s =~= s0.remove(i as int));
                assert forall|j: int| 0 <= j < s.len() implies #[trigger] self.contents@.contains_key(
                    s[j].0,
                ) && self.contents@[s[j].0] == s[j].1 by {
                    if j < i {
                        assert(s[j] == s0[j]);
                        assert(m0.contains_key(s0[j].0));
                    } else {
                        assert(s[j] == s0[j + 1]);
                        assert(m0.contains_key(s0[j + 1].0));
                    }
                }
                assert forall|a: int, b: int| 0 <= a < b < s.len() implies s[a].0 != s[b].0 by {
                    let a0 = if a < i { a } else { a + 1 };
                    let b0 = if b < i { b } else { b + 1 };
                    assert(s[a] == s0[a0] && s[b] == s0[b0]);
                }
                assert forall|kk: K| #[trigger]
                    self.contents@.contains_key(kk) implies exists|j: int|
                    0 <= j < s.len() && s[j].0 == kk by {
                    let j = choose|j: int| 0 <= j < s0.len() && s0[j].0 == kk;
                    assert(j != i);
                    if j < i {
                        assert(s[j].0 == kk);
                    } else {
                        assert(s[j - 1].0 == kk);
                    }
                }
                Some(e.1)
            },
            None => {
                assert(self.contents@ =~= m0.remove(*k));
                None
            },
        }
    }
}

} // verus!

verus! {

/// The value stored under `k`, or `default` when there is none.
pub open spec fn get_or<K, V>(m: Map<K, V>, k: K, default: V) -> V {
    if m.contains_key(k) {
        m[k]
    } else {
        default
    }
}

/// The value stored under `k` in `t`, or `default` when there is none.
pub fn lookup_or<K: TableKey, V: Copy>(t: &Table<K, V>, k: &K, default: V) -> (r: V)
    requires
        t.wf(),
    ensures
        r == get_or(t@, *k, default),
{
    match t.get(k) {
        Some(v) => *v,
        None => default,
    }
}

/// A 32-byte hash, held as four little-endian 64-bit words.
#[derive(Clone, Copy, Debug, PartialEq, Eq, Structural)]
pub struct Hash32 {
    pub w0: u64,
    pub w1: u64,
    pub w2: u64,
    pub w3: u64,
}

impl TableKey for Hash32 {
    fn same(&self, other: &Self) -> (r: bool) {
        *self == *other
    }
}

/// The value stored under `k`, or 0 when there is none.
pub open spec fn get0<K>(m: Map<K, u128>, k: K) -> u128 {
    if m.contains_key(k) {
        m[k]
    } else {
        0
    }
}

/// The error a [`ReentrancyGuard`] reports when it is entered twice.
#[derive(Clone, Copy, Debug, PartialEq, Eq, Structural)]
pub enum ReentrancyError {
    ReentrantCall,
}

/// A lock that rejects a second entry until the first one exits.
#[derive(Clone, Copy, Debug, PartialEq, Eq, Structural)]
pub struct ReentrancyGuard {
    pub locked: bool,
}

impl ReentrancyGuard {
    /// An unlocked guard.
    pub fn new() -> (g: ReentrancyGuard)
        ensures
            !g.locked,
    {
        ReentrancyGuard { locked: false }
    }

    /// Locks the guard; fails, leaving it locked, if it already was.
    pub fn enter(&mut self) -> (r: Result<(), ReentrancyError>)
        ensures
            final(self).locked,
            r is Ok <==> !old(self).locked,
    {
        if self.locked {
            Err(ReentrancyError::ReentrantCall)
        } else {
            self.locked = true;
            Ok(())
        }
    }

    /// Unlocks the guard.
    pub fn exit(&mut self)
        ensures
            !final(self).locked,
    {
        self.locked = false;
    }

    /// Whether the guard is locked.
    pub fn is_locked(&self) -> (r: bool)
        ensures
            r == self.locked,
    {
        self.locked
    }
}

/// A pending two-step hand-over of an administrator role.
#[derive(Clone, Copy, Debug, PartialEq, Eq, Structural)]
pub struct KeyRotationRequest {
    pub old_account: AccountId,
    pub new_account: AccountId,
    pub requested_at: u32,
    pub effective_at: u32,
    pub confirmed: bool,
}

/// Blocks a nominated administrator must wait before confirming a rotation.
pub const KEY_ROTATION_COOLDOWN_BLOCKS: u32 = 14_400;

/// Blocks after the cooldown during which a rotation may still be confirmed.
pub const KEY_ROTATION_EXPIRY_BLOCKS: u32 = 100_800;

/// `a + b` on block numbers, saturating at `u32::MAX`.
pub open spec fn sadd32(a: u32, b: u32) -> u32 {
    if a + b > u32::MAX {
        u32::MAX
    } else {
        (a + b) as u32
    }
}

/// `a + b` on 64-bit counters, saturating at `u64::MAX`.
pub open spec fn sadd64(a: u64, b: u64) -> u64 {
    if a + b > u64::MAX {
        u64::MAX
    } else {
        (a + b) as u64
    }
}

/// `a * b` on 64-bit values, saturating at `u64::MAX`.
pub open spec fn smul64(a: u64, b: u64) -> u64 {
    if a * b > u64::MAX {
        u64::MAX
    } else {
        (a * b) as u64
    }
}

/// `a * b` on 64-bit values, saturating at `u64::MAX`.
pub fn sat_mul64(a: u64, b: u64) -> (r: u64)
    ensures
        r == smul64(a, b),
{
    match a.checked_mul(b) {
        Some(v) => v,
        None => u64::MAX,
    }
}

/// `a - b` on 64-bit counters, stopping at 0.
pub open spec fn ssub64(a: u64, b: u64) -> u64 {
    if a < b {
        0
    } else {
        (a - b) as u64
    }
}

/// `a - b` on 32-bit counters, stopping at 0.
pub open spec fn ssub32(a: u32, b: u32) -> u32 {
    if a < b {
        0
    } else {
        (a - b) as u32
    }
}

/// The rotation request made by `caller` at `block` naming `new_admin`.
pub open spec fn rotation_request(caller: AccountId, new_admin: AccountId, block: u32) -> KeyRotationRequest {
    KeyRotationRequest {
        old_account: caller,
        new_account: new_admin,
        requested_at: block,
        effective_at: sadd32(block, KEY_ROTATION_COOLDOWN_BLOCKS),
        confirmed: false,
    }
}

/// Builds the rotation request made by `caller` at `block` naming `new_admin`.
pub fn new_rotation_request(caller: AccountId, new_admin: AccountId, block: u32) -> (r: KeyRotationRequest)
    ensures
        r == rotation_request(caller, new_admin, block),
{
    KeyRotationRequest {
        old_account: caller,
        new_account: new_admin,
        requested_at: block,
        effective_at: block.saturating_add(KEY_ROTATION_COOLDOWN_BLOCKS),
        confirmed: false,
    }
}


/// Whether `a` is one of `accounts`.
pub open spec fn listed(accounts: Seq<AccountId>, a: AccountId) -> bool {
    exists|i: int| 0 <= i < accounts.len() && accounts[i] == a
}

/// `accounts` with every occurrence of `a` taken out, the rest in order.
pub open spec fn without(accounts: Seq<AccountId>, a: AccountId) -> Seq<AccountId>
    decreases accounts.len(),
{
    if accounts.len() == 0 {
        accounts
    } else {
        let rest = without(accounts.drop_last(), a);
        if accounts.last() == a {
            rest
        } else {
            rest.push(accounts.last())
        }
    }
}

/// `accounts` with `a` appended unless it is already there.
pub open spec fn with_once(accounts: Seq<AccountId>, a: AccountId) -> Seq<AccountId> {
    if listed(accounts, a) {
        accounts
    } else {
        accounts.push(a)
    }
}

/// Whether `a` is one of `accounts`.
pub fn is_listed(accounts: &Vec<AccountId>, a: AccountId) -> (r: bool)
    ensures
        r == listed(accounts@, a),
{
    let n = accounts.len();
    let mut i: usize = 0;
    while i < n
        invariant
            n == accounts@.len(),
            i <= n,
            forall|j: int| 0 <= j < i ==> accounts@[j] != a,
        decreases n - i,
    {
        if accounts[i] == a {
            return true;
        }
        i = i + 1;
    }
    false
}

/// Appends `a` to `accounts` unless it is already there.
pub fn add_once(accounts: &mut Vec<AccountId>, a: AccountId)
    ensures
        final(accounts)@ == with_once(old(accounts)@, a),
{
    if !is_listed(accounts, a) {
        accounts.push(a);
    }
}

/// Takes every occurrence of `a` out of `accounts`, keeping the rest in order.
pub fn remove_all(accounts: &mut Vec<AccountId>, a: AccountId)
    ensures
        final(accounts)@ == without(old(accounts)@, a),
{
    let mut kept: Vec<AccountId> = Vec::new();
    let n = accounts.len();
    let mut i: usize = 0;
    while i < n
        invariant
            n == accounts@.len(),
            i <= n,
            kept@ == without(accounts@.subrange(0, i as int), a),
        decreases n - i,
    {
        let x = accounts[i];
        proof {
            let pre = accounts@.subrange(0, i as int);
            let post = accounts@.subrange(0, i + 1);
            assert(post.drop_last() =~= pre);
            assert(post.last() == x);
        }
        if x != a {
            kept.push(x);
        }
        i = i + 1;
    }
    assert(accounts@.subrange(0, n as int) =~= accounts@);
    *accounts = kept;
}

} // verus!
