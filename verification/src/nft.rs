//! The name NFT ledger: minting, approvals, transfers and enumeration of all
//! tokens and of each owner's tokens, plus the upgrade bookkeeping.
//!
//! The ledger keeps its enumeration consistent: every token is listed once
//! in mint order and once under its owner, and an owner's list holds only
//! tokens that owner holds.

use vstd::prelude::*;

use crate::str_map::StrMap;
use crate::text::str_eq;

verus! {

/// The version this code implements.
pub const CONTRACT_VERSION: u32 = 1;

#[derive(Clone, Copy, Debug, PartialEq, Eq, PartialOrd, Ord, Structural)]
pub enum NftError {
    AlreadyMinted,
    NotFound,
    Unauthorized,
    UpgradeFailed,
}

impl NftError {
    /// The numeric code the contract reports for this error.
    pub fn code(&self) -> (c: u32)
        ensures
            c == match *self {
                NftError::AlreadyMinted => 1u32,
                NftError::NotFound => 2u32,
                NftError::Unauthorized => 3u32,
                NftError::UpgradeFailed => 4u32,
            },
    {
        match self {
            NftError::AlreadyMinted => 1,
            NftError::NotFound => 2,
            NftError::Unauthorized => 3,
            NftError::UpgradeFailed => 4,
        }
    }
}

#[derive(Debug)]
pub struct TokenRecord {
    pub owner: String,
    pub approved: Option<String>,
    pub metadata_uri: Option<String>,
}

pub ghost struct TokenView {
    pub owner: Seq<char>,
    pub approved: Option<Seq<char>>,
    pub metadata_uri: Option<Seq<char>>,
}

pub open spec fn opt_view(o: Option<String>) -> Option<Seq<char>> {
    match o {
        Some(s) => Some(s@),
        None => None,
    }
}

impl View for TokenRecord {
    type V = TokenView;

    open spec fn view(&self) -> TokenView {
        TokenView {
            owner: self.owner@,
            approved: opt_view(self.approved),
            metadata_uri: opt_view(self.metadata_uri),
        }
    }
}

fn clone_opt(o: &Option<String>) -> (r: Option<String>)
    ensures
        opt_view(r) == opt_view(*o),
{
    match o {
        Some(s) => Some(s.clone()),
        None => None,
    }
}

impl Clone for TokenRecord {
    fn clone(&self) -> (r: Self)
        ensures
            r@ == self@,
    {
        TokenRecord {
            owner: self.owner.clone(),
            approved: clone_opt(&self.approved),
            metadata_uri: clone_opt(&self.metadata_uri),
        }
    }
}

/// What an upgrade reports: the version it moved from and to, and the admin
/// that authorised it.
#[derive(Debug)]
pub struct ContractUpgraded {
    pub old_version: u32,
    pub new_version: u32,
    pub admin: String,
}

/// An ordered list of token ids.
struct TokenList {
    items: Vec<String>,
}

impl View for TokenList {
    type V = Seq<Seq<char>>;

    closed spec fn view(&self) -> Seq<Seq<char>> {
        self.items@.map_values(|s: String| s@)
    }
}

/// The predicate that keeps every id but `id`.
pub open spec fn not_id(id: Seq<char>) -> spec_fn(Seq<char>) -> bool {
    |x: Seq<char>| x != id
}

/// `l` with every occurrence of `id` dropped, order kept.
pub open spec fn drop_id(l: Seq<Seq<char>>, id: Seq<char>) -> Seq<Seq<char>> {
    l.filter(not_id(id))
}

pub proof fn lemma_drop_id(l: Seq<Seq<char>>, id: Seq<char>)
    ensures
        forall|x: Seq<char>| #[trigger] drop_id(l, id).contains(x) <==> (l.contains(x) && x != id),
        l.no_duplicates() ==> drop_id(l, id).no_duplicates(),
    decreases l.len(),
{
    reveal(Seq::filter);
    if l.len() > 0 {
        let p = l.drop_last();
        let last = l.last();
        lemma_drop_id(p, id);
        assert(l =~= p.push(last));
        let sub = drop_id(p, id);
        assert forall|x: Seq<char>| #[trigger] drop_id(l, id).contains(x) <==> (l.contains(x) && x
            != id) by {
            if l.contains(x) && x != id {
                let i = choose|i: int| 0 <= i < l.len() && l[i] == x;
                if i < p.len() {
                    assert(p[i] == x);
                    assert(p.contains(x));
                }
            }
            if drop_id(l, id).contains(x) {
                if last != id {
                    let j = choose|j: int| 0 <= j < sub.push(last).len() && sub.push(last)[j] == x;
                    if j < sub.len() {
                        assert(sub[j] == x);
                        assert(sub.contains(x));
                        let k = choose|k: int| 0 <= k < p.len() && p[k] == x;
                        assert(l[k] == x);
                    } else {
                        assert(l[l.len() - 1] == x);
                    }
                } else {
                    assert(sub.contains(x));
                    let k = choose|k: int| 0 <= k < p.len() && p[k] == x;
                    assert(l[k] == x);
                }
            }
        }
        if l.no_duplicates() {
            assert(p.no_duplicates()) by {
                assert forall|a: int, b: int| 0 <= a < p.len() && 0 <= b < p.len() && a != b implies p[a]
                    != p[b] by {
                    assert(l[a] == p[a] && l[b] == p[b]);
                }
            }
            if last != id {
                assert(!p.contains(last)) by {
                    if p.contains(last) {
                        let k = choose|k: int| 0 <= k < p.len() && p[k] == last;
                        assert(l[k] == l[l.len() - 1]);
                    }
                }
                assert(!sub.contains(last));
                let q = sub.push(last);
                assert forall|a: int, b: int| 0 <= a < q.len() && 0 <= b < q.len() && a != b implies q[a]
                    != q[b] by {
                    if a < sub.len() && b < sub.len() {
                    } else if a < sub.len() {
                        assert(sub[a] == q[a]);
                        if q[a] == q[b] {
                            assert(sub.contains(last));
                        }
                    } else if b < sub.len() {
                        assert(sub[b] == q[b]);
                        if q[a] == q[b] {
                            assert(sub.contains(last));
                        }
                    }
                }
            }
        }
    }
}

impl TokenList {
    fn new() -> (r: Self)
        ensures
            r@ == Seq::<Seq<char>>::empty(),
    {
        let r = TokenList { items: Vec::new() };
        assert(r@ =~= Seq::<Seq<char>>::empty());
        r
    }

    fn len(&self) -> (n: usize)
        ensures
            n == self@.len(),
    {
        self.items.len()
    }

    fn get(&self, i: usize) -> (r: Option<String>)
        ensures
            i < self@.len() ==> (r matches Some(s) && s@ == self@[i as int]),
            i >= self@.len() ==> r is None,
    {
        if i < self.items.len() {
            Some(self.items[i].clone())
        } else {
            None
        }
    }

    fn contains(&self, id: &str) -> (r: bool)
        ensures
            r == self@.contains(id@),
    {
        let mut i: usize = 0;
        while i < self.items.len()
            invariant
                i <= self.items@.len(),
                forall|k: int| 0 <= k < i ==> self@[k] != id@,
            decreases self.items@.len() - i,
        {
            if str_eq(self.items[i].as_str(), id) {
                assert(self@[i as int] == id@);
                return true;
            }
            i = i + 1;
        }
        false
    }

    fn push(&mut self, id: String)
        ensures
            final(self)@ == old(self)@.push(id@),
    {
        self.items.push(id);
        assert(self@ =~= old(self)@.push(id@));
    }

    /// A copy without any occurrence of `id`.
    fn without(&self, id: &str) -> (r: Self)
        ensures
            r@ == drop_id(self@, id@),
    {
        let mut out = TokenList::new();
        let mut i: usize = 0;
        while i < self.items.len()
            invariant
                i <= self.items@.len(),
                out@ == drop_id(self@.take(i as int), id@),
            decreases self.items@.len() - i,
        {
            proof {
                assert(self@.take(i + 1 as int) =~= self@.take(i as int).push(self@[i as int]));
                self@.take(i as int).lemma_filter_push(self@[i as int], not_id(id@));
            }
            if !str_eq(self.items[i].as_str(), id) {
                out.push(self.items[i].clone());
            }
            i = i + 1;
        }
        assert(self@.take(self@.len() as int) =~= self@);
        out
    }

    fn duplicate(&self) -> (r: Self)
        ensures
            r@ == self@,
    {
        let mut out = TokenList::new();
        let mut i: usize = 0;
        while i < self.items.len()
            invariant
                i <= self.items@.len(),
                out@ == self@.take(i as int),
            decreases self.items@.len() - i,
        {
            out.push(self.items[i].clone());
            assert(self@.take(i + 1 as int) =~= self@.take(i as int).push(self@[i as int]));
            i = i + 1;
        }
        assert(self@.take(self@.len() as int) =~= self@);
        out
    }
}

/// Abstract ledger storage.
pub ghost struct NftState {
    pub tokens: Map<Seq<char>, TokenView>,
    /// Every minted id, in mint order.
    pub token_ids: Seq<Seq<char>>,
    /// Each owner's ids, in the order they arrived.
    pub owner_tokens: Map<Seq<char>, Seq<Seq<char>>>,
    pub admin: Option<Seq<char>>,
    pub version: Option<u32>,
}

pub struct NftContract {
    tokens: StrMap<TokenRecord>,
    token_ids: TokenList,
    owner_tokens: StrMap<TokenList>,
    admin: Option<String>,
    version: Option<u32>,
}

/// The ids listed under `owner` (none when the owner has no list).
pub open spec fn owned_by(ot: Map<Seq<char>, Seq<Seq<char>>>, owner: Seq<char>) -> Seq<Seq<char>> {
    if ot.contains_key(owner) {
        ot[owner]
    } else {
        Seq::empty()
    }
}

/// Lists `id` under `owner` unless it is there already.
pub open spec fn add_owner_token(
    ot: Map<Seq<char>, Seq<Seq<char>>>,
    owner: Seq<char>,
    id: Seq<char>,
) -> Map<Seq<char>, Seq<Seq<char>>> {
    if owned_by(ot, owner).contains(id) {
        ot
    } else {
        ot.insert(owner, owned_by(ot, owner).push(id))
    }
}

/// Drops `id` from the list of `owner`.
pub open spec fn remove_owner_token(
    ot: Map<Seq<char>, Seq<Seq<char>>>,
    owner: Seq<char>,
    id: Seq<char>,
) -> Map<Seq<char>, Seq<Seq<char>>> {
    ot.insert(owner, drop_id(owned_by(ot, owner), id))
}

/// Moves `id` from the list of `previous` to that of `next`; nothing
/// changes when they are the same owner.
pub open spec fn reindex_owner_token(
    ot: Map<Seq<char>, Seq<Seq<char>>>,
    previous: Seq<char>,
    next: Seq<char>,
    id: Seq<char>,
) -> Map<Seq<char>, Seq<Seq<char>>> {
    if previous == next {
        ot
    } else {
        add_owner_token(remove_owner_token(ot, previous, id), next, id)
    }
}

/// The enumeration invariant: ids are listed once each in mint order, each
/// minted token is listed under its owner, and an owner's list holds each
/// id once and only ids that owner holds.
pub open spec fn enumeration_consistent(s: NftState) -> bool {
    &&& s.token_ids.no_duplicates()
    &&& forall|i: int| 0 <= i < s.token_ids.len() ==> s.tokens.contains_key(#[trigger] s.token_ids[i])
    &&& forall|t: Seq<char>| #[trigger]
        s.tokens.contains_key(t) ==> s.token_ids.contains(t) && owned_by(
            s.owner_tokens,
            s.tokens[t].owner,
        ).contains(t)
    &&& forall|o: Seq<char>| #[trigger] s.owner_tokens.contains_key(o) ==> owner_list_ok(s, o)
}

pub open spec fn owner_list_ok(s: NftState, o: Seq<char>) -> bool {
    let l = s.owner_tokens[o];
    &&& l.no_duplicates()
    &&& forall|i: int|
        0 <= i < l.len() ==> s.tokens.contains_key(#[trigger] l[i]) && s.tokens[l[i]].owner == o
}

/// Storage after minting `id` to `owner`.
pub open spec fn minted_state(
    s: NftState,
    id: Seq<char>,
    owner: Seq<char>,
    metadata_uri: Option<Seq<char>>,
) -> NftState {
    NftState {
        tokens: s.tokens.insert(id, TokenView { owner, approved: None, metadata_uri }),
        token_ids: s.token_ids.push(id),
        owner_tokens: add_owner_token(s.owner_tokens, owner, id),
        ..s
    }
}

/// Storage after `id` passes to `new_owner`; any approval is cleared.
pub open spec fn transferred_state(s: NftState, id: Seq<char>, new_owner: Seq<char>) -> NftState {
    let rec = s.tokens[id];
    NftState {
        tokens: s.tokens.insert(id, TokenView { owner: new_owner, approved: None, ..rec }),
        owner_tokens: reindex_owner_token(s.owner_tokens, rec.owner, new_owner, id),
        ..s
    }
}

/// Storage after the approval of `id` is set to `approved`.
pub open spec fn approval_state(s: NftState, id: Seq<char>, approved: Option<Seq<char>>) -> NftState {
    NftState {
        tokens: s.tokens.insert(id, TokenView { approved, ..s.tokens[id] }),
        ..s
    }
}

/// The error of an owner-only change to `id` by `caller`, if any.
pub open spec fn owner_only_error(s: NftState, id: Seq<char>, caller: Seq<char>) -> Option<NftError> {
    if !s.tokens.contains_key(id) {
        Some(NftError::NotFound)
    } else if s.tokens[id].owner != caller {
        Some(NftError::Unauthorized)
    } else {
        None
    }
}

/// The error of `transfer` of `id` by `caller`, if any: the caller must be
/// the owner or the approved account.
pub open spec fn transfer_error(s: NftState, id: Seq<char>, caller: Seq<char>) -> Option<NftError> {
    if !s.tokens.contains_key(id) {
        Some(NftError::NotFound)
    } else if s.tokens[id].owner != caller && s.tokens[id].approved != Some(caller) {
        Some(NftError::Unauthorized)
    } else {
        None
    }
}

/// The error of `transfer_from`, if any: `owner` must hold the token and
/// `spender` must be its approved account.
pub open spec fn transfer_from_error(
    s: NftState,
    spender: Seq<char>,
    owner: Seq<char>,
    id: Seq<char>,
) -> Option<NftError> {
    if !s.tokens.contains_key(id) {
        Some(NftError::NotFound)
    } else if s.tokens[id].owner != owner || s.tokens[id].approved != Some(spender) {
        Some(NftError::Unauthorized)
    } else {
        None
    }
}

/// `n` as a `u32`, saturating.
pub open spec fn count_u32(n: nat) -> u32 {
    if n > u32::MAX {
        u32::MAX
    } else {
        n as u32
    }
}

/// The version the upgrade payload asks for: its first four bytes read
/// big-endian, or the next version when it is shorter than that.
pub open spec fn target_version(data: Seq<u8>) -> u32 {
    if data.len() < 4 {
        (CONTRACT_VERSION + 1) as u32
    } else {
        (data[0] * 16777216 + data[1] * 65536 + data[2] * 256 + data[3]) as u32
    }
}

pub fn decode_target_version(data: &[u8]) -> (v: u32)
    ensures
        v == target_version(data@),
{
    if data.len() < 4 {
        return CONTRACT_VERSION + 1;
    }
    let b0 = data[0] as u32;
    let b1 = data[1] as u32;
    let b2 = data[2] as u32;
    let b3 = data[3] as u32;
    b0 * 16777216 + b1 * 65536 + b2 * 256 + b3
}

proof fn lemma_push_list(l: Seq<Seq<char>>, x: Seq<char>)
    ensures
        forall|y: Seq<char>| #[trigger] l.push(x).contains(y) <==> (l.contains(y) || y == x),
        l.no_duplicates() && !l.contains(x) ==> l.push(x).no_duplicates(),
{
    let q = l.push(x);
    assert forall|y: Seq<char>| #[trigger] q.contains(y) <==> (l.contains(y) || y == x) by {
        if l.contains(y) {
            let i = choose|i: int| 0 <= i < l.len() && l[i] == y;
            assert(q[i] == y);
        }
        if y == x {
            assert(q[l.len() as int] == y);
        }
        if q.contains(y) {
            let j = choose|j: int| 0 <= j < q.len() && q[j] == y;
            if j < l.len() {
                assert(l[j] == y);
            }
        }
    }
    if l.no_duplicates() && !l.contains(x) {
        assert forall|a: int, b: int| 0 <= a < q.len() && 0 <= b < q.len() && a != b implies q[a]
            != q[b] by {
            if a < l.len() && b == l.len() {
                assert(l[a] == q[a]);
                if q[a] == q[b] {
                    assert(l.contains(x));
                }
            } else if b < l.len() && a == l.len() {
                assert(l[b] == q[b]);
                if q[a] == q[b] {
                    assert(l.contains(x));
                }
            }
        }
    }
}

/// Minting an id that is not yet minted keeps the enumeration consistent.
pub proof fn law_mint_keeps_enumeration(
    s: NftState,
    id: Seq<char>,
    owner: Seq<char>,
    metadata_uri: Option<Seq<char>>,
)
    requires
        enumeration_consistent(s),
        !s.tokens.contains_key(id),
    ensures
        enumeration_consistent(minted_state(s, id, owner, metadata_uri)),
{
    let t = minted_state(s, id, owner, metadata_uri);
    let ol = owned_by(s.owner_tokens, owner);
    assert(!s.token_ids.contains(id)) by {
        if s.token_ids.contains(id) {
            let i = choose|i: int| 0 <= i < s.token_ids.len() && s.token_ids[i] == id;
            assert(s.tokens.contains_key(s.token_ids[i]));
        }
    }
    lemma_push_list(s.token_ids, id);
    assert(!ol.contains(id)) by {
        if ol.contains(id) {
            let i = choose|i: int| 0 <= i < ol.len() && ol[i] == id;
            assert(s.owner_tokens.contains_key(owner));
            assert(owner_list_ok(s, owner));
            assert(s.tokens.contains_key(ol[i]));
        }
    }
    lemma_push_list(ol, id);
    assert(ol.no_duplicates()) by {
        if s.owner_tokens.contains_key(owner) {
            assert(owner_list_ok(s, owner));
        }
    }
    assert forall|i: int| 0 <= i < t.token_ids.len() implies t.tokens.contains_key(
        #[trigger] t.token_ids[i],
    ) by {
        if i < s.token_ids.len() {
            assert(s.tokens.contains_key(s.token_ids[i]));
        }
    }
    assert forall|k: Seq<char>| #[trigger] t.tokens.contains_key(k) implies t.token_ids.contains(k)
        && owned_by(t.owner_tokens, t.tokens[k].owner).contains(k) by {
        if k != id {
            assert(s.tokens.contains_key(k));
            let o = s.tokens[k].owner;
            assert(owned_by(s.owner_tokens, o).contains(k));
            if o == owner {
                assert(t.owner_tokens[owner] == ol.push(id));
            }
        }
    }
    assert forall|o: Seq<char>| #[trigger] t.owner_tokens.contains_key(o) implies owner_list_ok(
        t,
        o,
    ) by {
        if o == owner {
            let l = ol.push(id);
            assert(t.owner_tokens[o] == l);
            assert forall|i: int| 0 <= i < l.len() implies t.tokens.contains_key(#[trigger] l[i])
                && t.tokens[l[i]].owner == o by {
                if i < ol.len() {
                    assert(l[i] == ol[i]);
                    assert(s.owner_tokens.contains_key(owner));
                    assert(owner_list_ok(s, owner));
                    assert(s.tokens.contains_key(ol[i]));
                    assert(ol[i] != id);
                }
            }
        } else {
            assert(s.owner_tokens.contains_key(o));
            assert(owner_list_ok(s, o));
            let l = s.owner_tokens[o];
            assert forall|i: int| 0 <= i < l.len() implies t.tokens.contains_key(#[trigger] l[i])
                && t.tokens[l[i]].owner == o by {
                assert(s.tokens.contains_key(l[i]));
            }
        }
    }
}

/// Changing an approval keeps the enumeration consistent.
pub proof fn law_approval_keeps_enumeration(s: NftState, id: Seq<char>, approved: Option<Seq<char>>)
    requires
        enumeration_consistent(s),
        s.tokens.contains_key(id),
    ensures
        enumeration_consistent(approval_state(s, id, approved)),
{
    let t = approval_state(s, id, approved);
    assert forall|o: Seq<char>| #[trigger] t.owner_tokens.contains_key(o) implies owner_list_ok(
        t,
        o,
    ) by {
        assert(owner_list_ok(s, o));
        let l = s.owner_tokens[o];
        assert forall|i: int| 0 <= i < l.len() implies t.tokens.contains_key(#[trigger] l[i])
            && t.tokens[l[i]].owner == o by {
            assert(s.tokens.contains_key(l[i]));
        }
    }
    assert forall|i: int| 0 <= i < t.token_ids.len() implies t.tokens.contains_key(
        #[trigger] t.token_ids[i],
    ) by {
        assert(s.tokens.contains_key(s.token_ids[i]));
    }
    assert forall|k: Seq<char>| #[trigger] t.tokens.contains_key(k) implies t.token_ids.contains(k)
        && owned_by(t.owner_tokens, t.tokens[k].owner).contains(k) by {
        assert(s.tokens.contains_key(k));
    }
}

/// Transferring a minted token keeps the enumeration consistent: it leaves
/// its previous owner's list and joins the new owner's list once.
pub proof fn law_transfer_keeps_enumeration(s: NftState, id: Seq<char>, new_owner: Seq<char>)
    requires
        enumeration_consistent(s),
        s.tokens.contains_key(id),
    ensures
        enumeration_consistent(transferred_state(s, id, new_owner)),
{
    let t = transferred_state(s, id, new_owner);
    let prev = s.tokens[id].owner;
    assert forall|i: int| 0 <= i < t.token_ids.len() implies t.tokens.contains_key(
        #[trigger] t.token_ids[i],
    ) by {
        assert(s.tokens.contains_key(s.token_ids[i]));
    }
    if prev == new_owner {
        assert forall|o: Seq<char>| #[trigger] t.owner_tokens.contains_key(o) implies owner_list_ok(
            t,
            o,
        ) by {
            assert(owner_list_ok(s, o));
            let l = s.owner_tokens[o];
            assert forall|i: int| 0 <= i < l.len() implies t.tokens.contains_key(#[trigger] l[i])
                && t.tokens[l[i]].owner == o by {
                assert(s.tokens.contains_key(l[i]));
            }
        }
        assert forall|k: Seq<char>| #[trigger] t.tokens.contains_key(k) implies t.token_ids.contains(
            k,
        ) && owned_by(t.owner_tokens, t.tokens[k].owner).contains(k) by {
            assert(s.tokens.contains_key(k));
        }
    } else {
        let pl = owned_by(s.owner_tokens, prev);
        let nl = owned_by(s.owner_tokens, new_owner);
        let pl2 = drop_id(pl, id);
        lemma_drop_id(pl, id);
        assert(pl.contains(id));
        assert(s.owner_tokens.contains_key(prev));
        assert(owner_list_ok(s, prev));
        assert(!nl.contains(id)) by {
            if nl.contains(id) {
                let i = choose|i: int| 0 <= i < nl.len() && nl[i] == id;
                assert(s.owner_tokens.contains_key(new_owner));
                assert(owner_list_ok(s, new_owner));
            }
        }
        assert(nl.no_duplicates()) by {
            if s.owner_tokens.contains_key(new_owner) {
                assert(owner_list_ok(s, new_owner));
            }
        }
        lemma_push_list(nl, id);
        let ot1 = remove_owner_token(s.owner_tokens, prev, id);
        assert(owned_by(ot1, new_owner) == nl);
        assert(t.owner_tokens == ot1.insert(new_owner, nl.push(id)));
        assert forall|o: Seq<char>| #[trigger] t.owner_tokens.contains_key(o) implies owner_list_ok(
            t,
            o,
        ) by {
            if o == new_owner {
                let l = nl.push(id);
                assert forall|i: int| 0 <= i < l.len() implies t.tokens.contains_key(
                    #[trigger] l[i],
                ) && t.tokens[l[i]].owner == o by {
                    if i < nl.len() {
                        assert(l[i] == nl[i]);
                        assert(s.owner_tokens.contains_key(new_owner));
                        assert(owner_list_ok(s, new_owner));
                        assert(s.tokens.contains_key(nl[i]));
                    }
                }
            } else if o == prev {
                assert(t.owner_tokens[o] == pl2);
                assert forall|i: int| 0 <= i < pl2.len() implies t.tokens.contains_key(
                    #[trigger] pl2[i],
                ) && t.tokens[pl2[i]].owner == o by {
                    assert(pl2.contains(pl2[i]));
                    assert(pl.contains(pl2[i]));
                    let j = choose|j: int| 0 <= j < pl.len() && pl[j] == pl2[i];
                    assert(s.tokens.contains_key(pl[j]));
                }
            } else {
                assert(s.owner_tokens.contains_key(o));
                assert(owner_list_ok(s, o));
                let l = s.owner_tokens[o];
                assert forall|i: int| 0 <= i < l.len() implies t.tokens.contains_key(
                    #[trigger] l[i],
                ) && t.tokens[l[i]].owner == o by {
                    assert(s.tokens.contains_key(l[i]));
                }
            }
        }
        assert forall|k: Seq<char>| #[trigger] t.tokens.contains_key(k) implies t.token_ids.contains(
            k,
        ) && owned_by(t.owner_tokens, t.tokens[k].owner).contains(k) by {
            if k != id {
                assert(s.tokens.contains_key(k));
                let o = s.tokens[k].owner;
                assert(owned_by(s.owner_tokens, o).contains(k));
                if o == prev {
                    assert(pl2.contains(k));
                }
            }
        }
    }
}

/// The tokens `owner` holds.
pub open spec fn holdings(s: NftState, owner: Seq<char>) -> Set<Seq<char>> {
    Set::new(|t: Seq<char>| s.tokens.contains_key(t) && s.tokens[t].owner == owner)
}

/// With a consistent enumeration an owner's list names exactly the tokens
/// that owner holds, each once, so its length (the balance) counts them;
/// likewise the mint-order list names every minted token once, so its
/// length (the total supply) counts them.
pub proof fn law_enumeration_counts(s: NftState, owner: Seq<char>)
    requires
        enumeration_consistent(s),
    ensures
        owned_by(s.owner_tokens, owner).to_set() == holdings(s, owner),
        owned_by(s.owner_tokens, owner).len() == holdings(s, owner).len(),
        s.token_ids.to_set() == s.tokens.dom(),
        s.token_ids.len() == s.tokens.dom().len(),
{
    let l = owned_by(s.owner_tokens, owner);
    if s.owner_tokens.contains_key(owner) {
        assert(owner_list_ok(s, owner));
    }
    assert forall|t: Seq<char>| #[trigger] l.to_set().contains(t) <==> holdings(s, owner).contains(t) by {
        if l.contains(t) {
            let i = choose|i: int| 0 <= i < l.len() && l[i] == t;
            assert(s.owner_tokens.contains_key(owner));
            assert(s.tokens.contains_key(l[i]));
        }
        if holdings(s, owner).contains(t) {
            assert(s.tokens.contains_key(t));
        }
    }
    assert(l.to_set() =~= holdings(s, owner));
    l.unique_seq_to_set();
    assert forall|t: Seq<char>| #[trigger] s.token_ids.to_set().contains(t) <==> s.tokens.dom().contains(t) by {
        if s.token_ids.contains(t) {
            let i = choose|i: int| 0 <= i < s.token_ids.len() && s.token_ids[i] == t;
            assert(s.tokens.contains_key(s.token_ids[i]));
        }
        if s.tokens.contains_key(t) {
            assert(s.token_ids.contains(t));
        }
    }
    assert(s.token_ids.to_set() =~= s.tokens.dom());
    s.token_ids.unique_seq_to_set();
}

/// The sum of the list lengths (the balances) of `owners`.
pub open spec fn balance_total(s: NftState, owners: Seq<Seq<char>>) -> nat
    decreases owners.len(),
{
    if owners.len() == 0 {
        0
    } else {
        balance_total(s, owners.drop_last()) + owned_by(s.owner_tokens, owners.last()).len()
    }
}

/// The minted tokens whose owner is one of `owners`.
pub open spec fn held_by_any(s: NftState, owners: Seq<Seq<char>>) -> Set<Seq<char>> {
    Set::new(|t: Seq<char>| s.tokens.contains_key(t) && owners.contains(s.tokens[t].owner))
}

proof fn lemma_balance_total(s: NftState, owners: Seq<Seq<char>>)
    requires
        enumeration_consistent(s),
        owners.no_duplicates(),
    ensures
        held_by_any(s, owners).finite(),
        balance_total(s, owners) == held_by_any(s, owners).len(),
    decreases owners.len(),
{
    law_enumeration_counts(s, Seq::<char>::empty());
    vstd::seq_lib::seq_to_set_is_finite(s.token_ids);
    let dom = s.tokens.dom();
    assert(held_by_any(s, owners).subset_of(dom));
    vstd::set_lib::lemma_len_subset(held_by_any(s, owners), dom);
    if owners.len() == 0 {
        assert(held_by_any(s, owners) =~= Set::<Seq<char>>::empty());
    } else {
        let p = owners.drop_last();
        let o = owners.last();
        assert(p.no_duplicates());
        lemma_balance_total(s, p);
        law_enumeration_counts(s, o);
        let h = holdings(s, o);
        assert(h.subset_of(dom));
        vstd::set_lib::lemma_len_subset(h, dom);
        assert(!p.contains(o)) by {
            if p.contains(o) {
                let i = choose|i: int| 0 <= i < p.len() && p[i] == o;
                assert(owners[i] == owners[owners.len() - 1]);
            }
        }
        assert(held_by_any(s, p).disjoint(h));
        assert forall|t: Seq<char>| #[trigger] held_by_any(s, owners).contains(t)
            <==> (held_by_any(s, p) + h).contains(t) by {
            if s.tokens.contains_key(t) {
                let w = s.tokens[t].owner;
                if owners.contains(w) {
                    let i = choose|i: int| 0 <= i < owners.len() && owners[i] == w;
                    if i < p.len() {
                        assert(p[i] == w);
                    }
                }
                if p.contains(w) {
                    let i = choose|i: int| 0 <= i < p.len() && p[i] == w;
                    assert(owners[i] == w);
                }
                assert(owners[owners.len() - 1] == o);
            }
        }
        assert(held_by_any(s, owners) =~= held_by_any(s, p) + h);
        vstd::set_lib::lemma_set_disjoint_lens(held_by_any(s, p), h);
    }
}

/// The balances of all holders sum to the total supply: for any list of
/// distinct owners that includes the owner of every minted token, their
/// list lengths add up to the length of the mint-order list.
pub proof fn law_balances_sum_to_supply(s: NftState, owners: Seq<Seq<char>>)
    requires
        enumeration_consistent(s),
        owners.no_duplicates(),
        forall|t: Seq<char>| #[trigger] s.tokens.contains_key(t) ==> owners.contains(s.tokens[t].owner),
    ensures
        balance_total(s, owners) == s.token_ids.len(),
{
    lemma_balance_total(s, owners);
    law_enumeration_counts(s, Seq::<char>::empty());
    assert(held_by_any(s, owners) =~= s.tokens.dom());
}

/// A transfer hands the token to its new owner with no approval left and its
/// metadata kept; only the owner or the approved account can make one. The
/// minted tokens stay the same, and a transfer to the current owner leaves
/// every owner's list as it was.
pub proof fn law_transfer_outcome(s: NftState, id: Seq<char>, caller: Seq<char>, new_owner: Seq<char>)
    requires
        transfer_error(s, id, caller) is None,
    ensures
        ({
            let t = transferred_state(s, id, new_owner);
            &&& caller == s.tokens[id].owner || s.tokens[id].approved == Some(caller)
            &&& t.tokens[id].owner == new_owner
            &&& t.tokens[id].approved is None
            &&& t.tokens[id].metadata_uri == s.tokens[id].metadata_uri
            &&& t.token_ids == s.token_ids
            &&& t.tokens.dom() == s.tokens.dom()
            &&& new_owner == s.tokens[id].owner ==> t.owner_tokens == s.owner_tokens
        }),
{
    let t = transferred_state(s, id, new_owner);
    assert(t.tokens.dom() =~= s.tokens.dom());
}

impl View for NftContract {
    type V = NftState;

    closed spec fn view(&self) -> NftState {
        NftState {
            tokens: self.tokens@,
            token_ids: self.token_ids@,
            owner_tokens: self.owner_tokens@,
            admin: opt_view(self.admin),
            version: self.version,
        }
    }
}

impl NftContract {
    /// The contract's internal invariant.
    pub closed spec fn wf(&self) -> bool {
        enumeration_consistent(self@)
    }

    /// An empty ledger with no admin.
    pub fn new() -> (c: Self)
        ensures
            c.wf(),
            c@.tokens == Map::<Seq<char>, TokenView>::empty(),
            c@.token_ids == Seq::<Seq<char>>::empty(),
            c@.owner_tokens == Map::<Seq<char>, Seq<Seq<char>>>::empty(),
            c@.admin is None,
            c@.version is None,
    {
        NftContract {
            tokens: StrMap::new(),
            token_ids: TokenList::new(),
            owner_tokens: StrMap::new(),
            admin: None,
            version: None,
        }
    }

    /// The version this code implements.
    pub fn version(&self) -> (v: u32)
        ensures
            v == CONTRACT_VERSION,
    {
        CONTRACT_VERSION
    }

    /// Records the admin and the current version; only once.
    pub fn initialize(&mut self, admin: String) -> (r: Result<(), NftError>)
        requires
            old(self).wf(),
        ensures
            final(self).wf(),
            old(self)@.admin is Some ==> r == Err::<(), NftError>(NftError::AlreadyMinted)
                && final(self)@ == old(self)@,
            old(self)@.admin is None ==> r is Ok && final(self)@ == (NftState {
                admin: Some(admin@),
                version: Some(CONTRACT_VERSION),
                ..old(self)@
            }),
    {
        if self.admin.is_some() {
            return Err(NftError::AlreadyMinted);
        }
        self.admin = Some(admin);
        self.version = Some(CONTRACT_VERSION);
        Ok(())
    }

    /// The stored version, or the code's version when none is stored.
    pub fn get_version(&self) -> (v: u32)
        ensures
            v == match self@.version {
                Some(x) => x,
                None => CONTRACT_VERSION,
            },
    {
        match self.version {
            Some(v) => v,
            None => CONTRACT_VERSION,
        }
    }

    /// Moves the stored version to the one `migration_data` asks for. The
    /// host checks the admin's authorisation, installs the new code and
    /// publishes the returned report.
    pub fn upgrade(&mut self, migration_data: &[u8]) -> (r: Result<ContractUpgraded, NftError>)
        requires
            old(self).wf(),
        ensures
            final(self).wf(),
            old(self)@.admin is None ==> (r matches Err(e) && e == NftError::UpgradeFailed
                && final(self)@ == old(self)@),
            old(self)@.admin is Some ==> (r matches Ok(ev) && Some(ev.admin@) == old(self)@.admin
                && ev.old_version == match old(self)@.version {
                Some(x) => x,
                None => CONTRACT_VERSION,
            } && ev.new_version == target_version(migration_data@) && final(self)@ == (NftState {
                version: Some(target_version(migration_data@)),
                ..old(self)@
            })),
    {
        let admin = match &self.admin {
            Some(a) => a.clone(),
            None => {
                return Err(NftError::UpgradeFailed);
            },
        };
        let current_version = self.get_version();
        let target = decode_target_version(migration_data);
        self.version = Some(target);
        Ok(ContractUpgraded { old_version: current_version, new_version: target, admin })
    }

    /// The list of ids held under `owner`.
    fn owner_list(&self, owner: &str) -> (r: TokenList)
        ensures
            r@ == owned_by(self@.owner_tokens, owner@),
    {
        match self.owner_tokens.get(owner) {
            Some(l) => l.duplicate(),
            None => TokenList::new(),
        }
    }

    fn list_owner_token(&mut self, owner: &str, id: &str)
        ensures
            final(self)@ == (NftState {
                owner_tokens: add_owner_token(old(self)@.owner_tokens, owner@, id@),
                ..old(self)@
            }),
    {
        let mut list = self.owner_list(owner);
        if !list.contains(id) {
            list.push(String::from_str(id));
            self.owner_tokens.insert(String::from_str(owner), list);
        }
    }

    fn unlist_owner_token(&mut self, owner: &str, id: &str)
        ensures
            final(self)@ == (NftState {
                owner_tokens: remove_owner_token(old(self)@.owner_tokens, owner@, id@),
                ..old(self)@
            }),
    {
        let list = self.owner_list(owner);
        self.owner_tokens.insert(String::from_str(owner), list.without(id));
    }

    /// Mints `token_id` to `owner` with optional metadata; an id is minted
    /// once.
    pub fn mint(&mut self, token_id: &str, owner: &str, metadata_uri: Option<String>) -> (r: Result<
        (),
        NftError,
    >)
        requires
            old(self).wf(),
        ensures
            final(self).wf(),
            old(self)@.tokens.contains_key(token_id@) ==> r == Err::<(), NftError>(
                NftError::AlreadyMinted,
            ) && final(self)@ == old(self)@,
            !old(self)@.tokens.contains_key(token_id@) ==> r is Ok && final(self)@ == minted_state(
                old(self)@,
                token_id@,
                owner@,
                opt_view(metadata_uri),
            ),
    {
        if self.tokens.contains_key(token_id) {
            return Err(NftError::AlreadyMinted);
        }
        let ghost s0 = self@;
        proof {
            law_mint_keeps_enumeration(s0, token_id@, owner@, opt_view(metadata_uri));
        }
        let record = TokenRecord { owner: String::from_str(owner), approved: None, metadata_uri };
        self.tokens.insert(String::from_str(token_id), record);
        self.token_ids.push(String::from_str(token_id));
        self.list_owner_token(owner, token_id);
        Ok(())
    }

    fn set_approval(&mut self, token_id: &str, caller: &str, approved: Option<String>) -> (r: Result<
        (),
        NftError,
    >)
        requires
            old(self).wf(),
        ensures
            final(self).wf(),
            match r {
                Err(e) => owner_only_error(old(self)@, token_id@, caller@) == Some(e) && final(self)@ == old(self)@,
                Ok(()) => owner_only_error(old(self)@, token_id@, caller@) is None && final(self)@
                    == approval_state(old(self)@, token_id@, opt_view(approved)),
            },
    {
        let mut record = match self.tokens.get(token_id) {
            Some(rec) => rec.clone(),
            None => {
                return Err(NftError::NotFound);
            },
        };
        if !str_eq(record.owner.as_str(), caller) {
            return Err(NftError::Unauthorized);
        }
        proof {
            law_approval_keeps_enumeration(self@, token_id@, opt_view(approved));
        }
        record.approved = approved;
        self.tokens.insert(String::from_str(token_id), record);
        Ok(())
    }

    /// Lets `approved` transfer `token_id`; only its owner may do this.
    pub fn approve(&mut self, token_id: &str, caller: &str, approved: &str) -> (r: Result<
        (),
        NftError,
    >)
        requires
            old(self).wf(),
        ensures
            final(self).wf(),
            match r {
                Err(e) => owner_only_error(old(self)@, token_id@, caller@) == Some(e) && final(self)@ == old(self)@,
                Ok(()) => owner_only_error(old(self)@, token_id@, caller@) is None && final(self)@
                    == approval_state(old(self)@, token_id@, Some(approved@)),
            },
    {
        self.set_approval(token_id, caller, Some(String::from_str(approved)))
    }

    /// Withdraws the approval on `token_id`; only its owner may do this.
    pub fn approve_clear(&mut self, token_id: &str, caller: &str) -> (r: Result<(), NftError>)
        requires
            old(self).wf(),
        ensures
            final(self).wf(),
            match r {
                Err(e) => owner_only_error(old(self)@, token_id@, caller@) == Some(e) && final(self)@ == old(self)@,
                Ok(()) => owner_only_error(old(self)@, token_id@, caller@) is None && final(self)@
                    == approval_state(old(self)@, token_id@, None),
            },
    {
        self.set_approval(token_id, caller, None)
    }

    /// Gives `token_id` to `new_owner`, clears its approval and moves it
    /// between the owners' lists.
    fn move_token(&mut self, token_id: &str, record: TokenRecord, new_owner: &str)
        requires
            old(self).wf(),
            old(self)@.tokens.contains_key(token_id@),
            record@ == old(self)@.tokens[token_id@],
        ensures
            final(self).wf(),
            final(self)@ == transferred_state(old(self)@, token_id@, new_owner@),
    {
        proof {
            law_transfer_keeps_enumeration(self@, token_id@, new_owner@);
        }
        let previous_owner = record.owner;
        let updated = TokenRecord {
            owner: String::from_str(new_owner),
            approved: None,
            metadata_uri: record.metadata_uri,
        };
        self.tokens.insert(String::from_str(token_id), updated);
        if !str_eq(previous_owner.as_str(), new_owner) {
            self.unlist_owner_token(previous_owner.as_str(), token_id);
            self.list_owner_token(new_owner, token_id);
        }
    }

    /// Transfers `token_id` to `new_owner`; the caller must be its owner or
    /// its approved account.
    pub fn transfer(&mut self, token_id: &str, caller: &str, new_owner: &str) -> (r: Result<
        (),
        NftError,
    >)
        requires
            old(self).wf(),
        ensures
            final(self).wf(),
            match r {
                Err(e) => transfer_error(old(self)@, token_id@, caller@) == Some(e) && final(self)@ == old(self)@,
                Ok(()) => transfer_error(old(self)@, token_id@, caller@) is None && final(self)@
                    == transferred_state(old(self)@, token_id@, new_owner@),
            },
    {
        let record = match self.tokens.get(token_id) {
            Some(rec) => rec.clone(),
            None => {
                return Err(NftError::NotFound);
            },
        };
        let is_approved = match &record.approved {
            Some(a) => str_eq(a.as_str(), caller),
            None => false,
        };
        if !str_eq(record.owner.as_str(), caller) && !is_approved {
            return Err(NftError::Unauthorized);
        }
        self.move_token(token_id, record, new_owner);
        Ok(())
    }

    /// Transfers `token_id` from `owner` to `recipient` on behalf of
    /// `spender`, which must be the token's approved account.
    pub fn transfer_from(
        &mut self,
        spender: &str,
        owner: &str,
        recipient: &str,
        token_id: &str,
    ) -> (r: Result<(), NftError>)
        requires
            old(self).wf(),
        ensures
            final(self).wf(),
            match r {
                Err(e) => transfer_from_error(old(self)@, spender@, owner@, token_id@) == Some(e)
                    && final(self)@ == old(self)@,
                Ok(()) => transfer_from_error(old(self)@, spender@, owner@, token_id@) is None
                    && final(self)@ == transferred_state(old(self)@, token_id@, recipient@),
            },
    {
        let record = match self.tokens.get(token_id) {
            Some(rec) => rec.clone(),
            None => {
                return Err(NftError::NotFound);
            },
        };
        let is_approved = match &record.approved {
            Some(a) => str_eq(a.as_str(), spender),
            None => false,
        };
        if !str_eq(record.owner.as_str(), owner) || !is_approved {
            return Err(NftError::Unauthorized);
        }
        self.move_token(token_id, record, recipient);
        Ok(())
    }

    /// The owner of `token_id`, if minted.
    pub fn owner_of(&self, token_id: &str) -> (r: Option<String>)
        ensures
            self@.tokens.contains_key(token_id@) ==> opt_view(r) == Some(
                self@.tokens[token_id@].owner,
            ),
            !self@.tokens.contains_key(token_id@) ==> r is None,
    {
        match self.tokens.get(token_id) {
            Some(rec) => Some(rec.owner.clone()),
            None => None,
        }
    }

    /// The record of `token_id`, if minted.
    pub fn token(&self, token_id: &str) -> (r: Option<TokenRecord>)
        ensures
            self@.tokens.contains_key(token_id@) ==> (r matches Some(rec) && rec@
                == self@.tokens[token_id@]),
            !self@.tokens.contains_key(token_id@) ==> r is None,
    {
        match self.tokens.get(token_id) {
            Some(rec) => Some(rec.clone()),
            None => None,
        }
    }

    /// How many tokens are listed under `owner` (saturating at `u32::MAX`).
    pub fn balance_of(&self, owner: &str) -> (n: u32)
        ensures
            n == count_u32(owned_by(self@.owner_tokens, owner@).len()),
    {
        let n = self.owner_list(owner).len();
        if n > 4294967295usize {
            4294967295u32
        } else {
            n as u32
        }
    }

    /// How many tokens were minted (saturating at `u32::MAX`).
    pub fn total_supply(&self) -> (n: u32)
        ensures
            n == count_u32(self@.token_ids.len()),
    {
        let n = self.token_ids.len();
        if n > 4294967295usize {
            4294967295u32
        } else {
            n as u32
        }
    }

    /// The `index`-th minted id, in mint order.
    pub fn token_by_index(&self, index: u32) -> (r: Option<String>)
        ensures
            index < self@.token_ids.len() ==> opt_view(r) == Some(self@.token_ids[index as int]),
            index >= self@.token_ids.len() ==> r is None,
    {
        self.token_ids.get(index as usize)
    }

    /// The `index`-th id listed under `owner`.
    pub fn token_of_owner_by_index(&self, owner: &str, index: u32) -> (r: Option<String>)
        ensures
            index < owned_by(self@.owner_tokens, owner@).len() ==> opt_view(r) == Some(
                owned_by(self@.owner_tokens, owner@)[index as int],
            ),
            index >= owned_by(self@.owner_tokens, owner@).len() ==> r is None,
    {
        self.owner_list(owner).get(index as usize)
    }

    /// The metadata URI of `token_id`, if minted with one.
    pub fn token_uri(&self, token_id: &str) -> (r: Option<String>)
        ensures
            self@.tokens.contains_key(token_id@) ==> opt_view(r) == self@.tokens[token_id@].metadata_uri,
            !self@.tokens.contains_key(token_id@) ==> r is None,
    {
        match self.tokens.get(token_id) {
            Some(rec) => clone_opt(&rec.metadata_uri),
            None => None,
        }
    }
}


impl NftContract {
    /// Every reachable ledger keeps its enumeration consistent.
    pub proof fn law_enumeration_consistent(&self)
        requires
            self.wf(),
        ensures
            enumeration_consistent(self@),
    {
    }
}

} // verus!
