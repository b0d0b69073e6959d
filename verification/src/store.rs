//! A verified model of the subscription store: the durable rows the
//! datastore holds, the rows one open transaction stages, and the exact
//! effect of each statement the workflow issues. The real datastore behind
//! it only has to implement these transitions; every invariant of the
//! subscriber lifecycle is proved here.

use vstd::prelude::*;
use vstd::string::StringExecFns;
use crate::domain::NewSubscriber;
use crate::errors::StoreTokenError;
use crate::errors::SubscribeError;

verus! {

/// The two lifecycle states of a subscriber.
#[derive(Clone, Copy, PartialEq, Eq, Structural, Debug)]
pub enum SubscriberStatus {
    PendingConfirmation,
    Confirmed,
}

/// One row of the subscriber table.
#[derive(Debug)]
pub struct SubscriberRecord {
    pub id: u128,
    pub email: String,
    pub name: String,
    pub status: SubscriberStatus,
}

/// One row of the token table: a confirmation token and the subscriber it
/// belongs to.
#[derive(Debug)]
pub struct TokenRecord {
    pub token: String,
    pub subscriber_id: u128,
}

/// The committed, durable state of the store.
pub struct StoreModel {
    pub subscribers: Vec<SubscriberRecord>,
    pub tokens: Vec<TokenRecord>,
}

/// The rows staged by one open transaction, invisible to everyone until
/// commit; dropping the transaction rolls them back.
pub struct StoreTransaction {
    pub staged_subscribers: Vec<SubscriberRecord>,
    pub staged_tokens: Vec<TokenRecord>,
}

/// Some row carries this subscriber identifier.
pub open spec fn has_subscriber_id(rows: Seq<SubscriberRecord>, id: u128) -> bool {
    exists|i: int| 0 <= i < rows.len() && rows[i].id == id
}

/// Some row carries this token string.
pub open spec fn has_token_string(rows: Seq<TokenRecord>, token: Seq<char>) -> bool {
    exists|i: int| 0 <= i < rows.len() && rows[i].token@ == token
}

/// `post` is `pre` plus one subscriber row with the given fields.
pub open spec fn pushed_subscriber(
    pre: Seq<SubscriberRecord>,
    post: Seq<SubscriberRecord>,
    id: u128,
    email: Seq<char>,
    name: Seq<char>,
    status: SubscriberStatus,
) -> bool {
    &&& post.len() == pre.len() + 1
    &&& forall|i: int| 0 <= i < pre.len() ==> post[i] == pre[i]
    &&& post.last().id == id
    &&& post.last().email@ == email
    &&& post.last().name@ == name
    &&& post.last().status == status
}

/// `post` is `pre` plus one token row with the given fields.
pub open spec fn pushed_token(
    pre: Seq<TokenRecord>,
    post: Seq<TokenRecord>,
    token: Seq<char>,
    subscriber_id: u128,
) -> bool {
    &&& post.len() == pre.len() + 1
    &&& forall|i: int| 0 <= i < pre.len() ==> post[i] == pre[i]
    &&& post.last().token@ == token
    &&& post.last().subscriber_id == subscriber_id
}

/// The effect of redeeming a token that belongs to subscriber `id`: every
/// row keeps its identifier, email and name, and exactly the rows with
/// identifier `id` now carry the confirmed status.
pub open spec fn confirm_effect(
    pre: Seq<SubscriberRecord>,
    post: Seq<SubscriberRecord>,
    id: u128,
) -> bool {
    &&& post.len() == pre.len()
    &&& forall|j: int| 0 <= j < pre.len() && pre[j].id != id ==> post[j] == pre[j]
    &&& forall|j: int|
        0 <= j < pre.len() && pre[j].id == id ==> {
            &&& post[j].id == pre[j].id
            &&& post[j].email == pre[j].email
            &&& post[j].name == pre[j].name
            &&& post[j].status == SubscriberStatus::Confirmed
        }
}

/// Relies on `uuid::Uuid::new_v4` and `Uuid::as_u128`: a freshly drawn
/// random version-4 identifier, taken as its 128-bit value. Nothing can be
/// promised of a random draw; the store's key constraint is the backstop.
#[verifier::external_body]
pub(crate) fn generate_subscriber_id() -> (id: u128) {
    uuid::Uuid::new_v4().as_u128()
}

fn contains_subscriber_id(rows: &Vec<SubscriberRecord>, id: u128) -> (b: bool)
    ensures
        b == has_subscriber_id(rows@, id),
{
    let mut i: usize = 0;
    while i < rows.len()
        invariant
            i <= rows@.len(),
            forall|j: int| 0 <= j < i ==> rows@[j].id != id,
        decreases rows@.len() - i,
    {
        if rows[i].id == id {
            return true;
        }
        i += 1;
    }
    false
}

fn contains_token_string(rows: &Vec<TokenRecord>, token: &String) -> (b: bool)
    ensures
        b == has_token_string(rows@, token@),
{
    let mut i: usize = 0;
    while i < rows.len()
        invariant
            i <= rows@.len(),
            forall|j: int| 0 <= j < i ==> rows@[j].token@ != token@,
        decreases rows@.len() - i,
    {
        if rows[i].token.eq(token) {
            return true;
        }
        i += 1;
    }
    false
}

/// The subscriber identifier of the first row carrying this token.
fn find_token_subscriber(rows: &Vec<TokenRecord>, token: &String) -> (r: Option<u128>)
    ensures
        r is Some <==> has_token_string(rows@, token@),
        r matches Some(sid) ==> exists|i: int|
            0 <= i < rows@.len() && rows@[i].token@ == token@ && rows@[i].subscriber_id == sid,
{
    let mut i: usize = 0;
    while i < rows.len()
        invariant
            i <= rows@.len(),
            forall|j: int| 0 <= j < i ==> rows@[j].token@ != token@,
        decreases rows@.len() - i,
    {
        if rows[i].token.eq(token) {
            return Some(rows[i].subscriber_id);
        }
        i += 1;
    }
    None
}

impl StoreModel {
    /// Identifiers are unique; tokens are unique; every token belongs to an
    /// existing subscriber; and every pending subscriber has at least one
    /// token — the durable invariants of the subscription lifecycle.
    pub open spec fn wf(&self) -> bool {
        &&& forall|i: int, j: int|
            0 <= i < j < self.subscribers@.len() ==> self.subscribers@[i].id
                != self.subscribers@[j].id
        &&& forall|i: int, j: int|
            0 <= i < j < self.tokens@.len() ==> self.tokens@[i].token@ != self.tokens@[j].token@
        &&& forall|i: int|
            0 <= i < self.tokens@.len() ==> has_subscriber_id(
                self.subscribers@,
                self.tokens@[i].subscriber_id,
            )
        &&& forall|i: int|
            0 <= i < self.subscribers@.len() && self.subscribers@[i].status
                is PendingConfirmation ==> exists|j: int|
                0 <= j < self.tokens@.len() && self.tokens@[j].subscriber_id
                    == self.subscribers@[i].id
    }

    /// The empty store, trivially well-formed.
    pub fn new() -> (s: StoreModel)
        ensures
            s.subscribers@ == Seq::<SubscriberRecord>::empty(),
            s.tokens@ == Seq::<TokenRecord>::empty(),
            s.wf(),
    {
        StoreModel { subscribers: Vec::new(), tokens: Vec::new() }
    }

    /// Opens a transaction: nothing staged yet.
    pub fn begin(&self) -> (tx: StoreTransaction)
        ensures
            tx.staged_subscribers@ == Seq::<SubscriberRecord>::empty(),
            tx.staged_tokens@ == Seq::<TokenRecord>::empty(),
    {
        StoreTransaction { staged_subscribers: Vec::new(), staged_tokens: Vec::new() }
    }

    /// The INSERT of a new pending subscriber inside an open transaction:
    /// fails exactly when a committed or staged row already carries the
    /// identifier; on success stages one pending row with the given fields
    /// and touches nothing else.
    pub fn insert_subscriber(
        &self,
        tx: &mut StoreTransaction,
        id: u128,
        subscriber: &NewSubscriber,
    ) -> (r: Result<(), String>)
        ensures
            r is Ok <==> (!has_subscriber_id(self.subscribers@, id) && !has_subscriber_id(
                old(tx).staged_subscribers@,
                id,
            )),
            r is Ok ==> pushed_subscriber(
                old(tx).staged_subscribers@,
                final(tx).staged_subscribers@,
                id,
                subscriber.email@,
                subscriber.name@,
                SubscriberStatus::PendingConfirmation,
            ),
            final(tx).staged_tokens@ == old(tx).staged_tokens@,
            r is Err ==> *final(tx) == *old(tx),
            r matches Err(e) ==> e@ == "duplicate subscriber id"@,
    {
        if contains_subscriber_id(&self.subscribers, id) || contains_subscriber_id(
            &tx.staged_subscribers,
            id,
        ) {
            return Err(String::from_str("duplicate subscriber id"));
        }
        let record = SubscriberRecord {
            id,
            email: String::from_str(subscriber.email.as_ref()),
            name: String::from_str(subscriber.name.as_ref()),
            status: SubscriberStatus::PendingConfirmation,
        };
        tx.staged_subscribers.push(record);
        Ok(())
    }

    /// The INSERT of a token row inside an open transaction: fails exactly
    /// when a committed or staged row already carries the token — reported
    /// as a duplicate — or, failing that, when no committed or staged
    /// subscriber carries the identifier; on success stages the
    /// association and touches nothing else.
    pub fn store_token(
        &self,
        tx: &mut StoreTransaction,
        subscriber_id: u128,
        token: &String,
    ) -> (r: Result<(), StoreTokenError>)
        ensures
            r is Ok <==> (!has_token_string(self.tokens@, token@) && !has_token_string(
                old(tx).staged_tokens@,
                token@,
            ) && (has_subscriber_id(self.subscribers@, subscriber_id) || has_subscriber_id(
                old(tx).staged_subscribers@,
                subscriber_id,
            ))),
            r is Ok ==> pushed_token(
                old(tx).staged_tokens@,
                final(tx).staged_tokens@,
                token@,
                subscriber_id,
            ),
            final(tx).staged_subscribers@ == old(tx).staged_subscribers@,
            r is Err ==> *final(tx) == *old(tx),
            r matches Err(e) ==> e.0@ == (if has_token_string(self.tokens@, token@)
                || has_token_string(old(tx).staged_tokens@, token@) {
                "duplicate subscription token"@
            } else {
                "unknown subscriber for token"@
            }),
    {
        if contains_token_string(&self.tokens, token) || contains_token_string(
            &tx.staged_tokens,
            token,
        ) {
            return Err(StoreTokenError(String::from_str("duplicate subscription token")));
        }
        if !contains_subscriber_id(&self.subscribers, subscriber_id) && !contains_subscriber_id(
            &tx.staged_subscribers,
            subscriber_id,
        ) {
            return Err(StoreTokenError(String::from_str("unknown subscriber for token")));
        }
        tx.staged_tokens.push(TokenRecord { token: token.clone(), subscriber_id });
        Ok(())
    }

    /// Commits a transaction: every staged row becomes durable, in order,
    /// and the staging area is consumed.
    pub fn commit(&mut self, tx: StoreTransaction)
        ensures
            final(self).subscribers@ == old(self).subscribers@ + tx.staged_subscribers@,
            final(self).tokens@ == old(self).tokens@ + tx.staged_tokens@,
    {
        let mut tx = tx;
        self.subscribers.append(&mut tx.staged_subscribers);
        self.tokens.append(&mut tx.staged_tokens);
    }

    /// The whole transactional persistence step of one sign-up: open a
    /// transaction, insert the subscriber as pending, store the token,
    /// commit. A failure of either statement leaves the store exactly as it
    /// was — the rollback — and an identifier collision stays
    /// distinguishable from a token collision.
    pub fn persist_new_subscriber(
        &mut self,
        id: u128,
        subscriber: &NewSubscriber,
        token: &String,
    ) -> (r: Result<(), SubscribeError>)
        requires
            old(self).wf(),
        ensures
            final(self).wf(),
            r is Ok <==> (!has_subscriber_id(old(self).subscribers@, id) && !has_token_string(
                old(self).tokens@,
                token@,
            )),
            r is Ok ==> pushed_subscriber(
                old(self).subscribers@,
                final(self).subscribers@,
                id,
                subscriber.email@,
                subscriber.name@,
                SubscriberStatus::PendingConfirmation,
            ),
            r is Ok ==> pushed_token(old(self).tokens@, final(self).tokens@, token@, id),
            r is Err ==> *final(self) == *old(self),
            r matches Err(e) ==> (if has_subscriber_id(old(self).subscribers@, id) {
                e is InsertSubscriberError
            } else {
                e is StoreTokenError
            }),
    {
        let mut tx = self.begin();
        match self.insert_subscriber(&mut tx, id, subscriber) {
            Err(e) => {
                return Err(SubscribeError::InsertSubscriberError(e));
            },
            Ok(()) => {},
        }
        match self.store_token(&mut tx, id, token) {
            Err(e) => {
                return Err(SubscribeError::StoreTokenError(e));
            },
            Ok(()) => {},
        }
        let ghost pre = *self;
        let ghost staged_subs = tx.staged_subscribers@;
        let ghost staged_toks = tx.staged_tokens@;
        self.commit(tx);
        proof {
            let subs = self.subscribers@;
            let toks = self.tokens@;
            let ns = pre.subscribers@.len() as int;
            let nt = pre.tokens@.len() as int;
            assert forall|i: int, j: int| 0 <= i < j < subs.len() implies subs[i].id != subs[j].id by {
                if j < ns {
                } else {
                    assert(subs[j].id == id);
                    if subs[i].id == id && i < ns {
                        assert(has_subscriber_id(pre.subscribers@, id));
                    }
                }
            }
            assert forall|i: int, j: int|
                0 <= i < j < toks.len() implies toks[i].token@ != toks[j].token@ by {
                if j < nt {
                } else {
                    assert(toks[j].token@ == token@);
                    if toks[i].token@ == token@ && i < nt {
                        assert(has_token_string(pre.tokens@, token@));
                    }
                }
            }
            assert forall|i: int| 0 <= i < toks.len() implies has_subscriber_id(
                subs,
                toks[i].subscriber_id,
            ) by {
                if i < nt {
                    let w = choose|w: int|
                        0 <= w < ns && pre.subscribers@[w].id == toks[i].subscriber_id;
                    assert(subs[w].id == toks[i].subscriber_id);
                } else {
                    assert(toks[i].subscriber_id == id);
                    assert(subs[ns].id == id);
                }
            }
            assert forall|i: int|
                0 <= i < subs.len() && subs[i].status is PendingConfirmation implies exists|j: int|
                0 <= j < toks.len() && toks[j].subscriber_id == subs[i].id by {
                if i < ns {
                    let w = choose|w: int|
                        0 <= w < nt && pre.tokens@[w].subscriber_id == pre.subscribers@[i].id;
                    assert(toks[w].subscriber_id == subs[i].id);
                } else {
                    assert(subs[i].id == id);
                    assert(toks[nt].subscriber_id == id);
                }
            }
        }
        Ok(())
    }

    /// Redeems a confirmation token: reports whether any row carries it,
    /// and when one does, sets that subscriber's status to confirmed.
    /// Runs as its own single statement; tokens are never expired or
    /// deleted here.
    pub fn confirm_subscriber(&mut self, token: &String) -> (found: bool)
        requires
            old(self).wf(),
        ensures
            final(self).wf(),
            found == has_token_string(old(self).tokens@, token@),
            final(self).tokens@ == old(self).tokens@,
            !found ==> final(self).subscribers@ == old(self).subscribers@,
            found ==> exists|i: int|
                0 <= i < old(self).tokens@.len() && old(self).tokens@[i].token@ == token@
                    && confirm_effect(
                    old(self).subscribers@,
                    final(self).subscribers@,
                    old(self).tokens@[i].subscriber_id,
                ),
    {
        let sid = match find_token_subscriber(&self.tokens, token) {
            None => {
                return false;
            },
            Some(sid) => sid,
        };
        let ghost pre = self.subscribers@;
        let ghost pre_tokens = self.tokens@;
        let mut j: usize = 0;
        while j < self.subscribers.len()
            invariant
                j <= self.subscribers@.len(),
                self.subscribers@.len() == pre.len(),
                self.tokens@ == pre_tokens,
                forall|k: int|
                    0 <= k < j && pre[k].id != sid ==> self.subscribers@[k] == pre[k],
                forall|k: int|
                    0 <= k < j && pre[k].id == sid ==> {
                        &&& self.subscribers@[k].id == pre[k].id
                        &&& self.subscribers@[k].email == pre[k].email
                        &&& self.subscribers@[k].name == pre[k].name
                        &&& self.subscribers@[k].status == SubscriberStatus::Confirmed
                    },
                forall|k: int| j <= k < pre.len() ==> self.subscribers@[k] == pre[k],
            decreases pre.len() - j,
        {
            if self.subscribers[j].id == sid {
                self.subscribers[j].status = SubscriberStatus::Confirmed;
            }
            j += 1;
        }
        proof {
            let post = self.subscribers@;
            assert(confirm_effect(pre, post, sid));
            let i = choose|i: int|
                0 <= i < pre_tokens.len() && pre_tokens[i].token@ == token@
                    && pre_tokens[i].subscriber_id == sid;
            assert(0 <= i < pre_tokens.len() && pre_tokens[i].token@ == token@ && confirm_effect(
                pre,
                post,
                pre_tokens[i].subscriber_id,
            ));
            assert forall|a: int, b: int| 0 <= a < b < post.len() implies post[a].id != post[b].id by {
                assert(post[a].id == pre[a].id);
                assert(post[b].id == pre[b].id);
            }
            assert forall|a: int| 0 <= a < pre_tokens.len() implies has_subscriber_id(
                post,
                pre_tokens[a].subscriber_id,
            ) by {
                let w = choose|w: int|
                    0 <= w < pre.len() && pre[w].id == pre_tokens[a].subscriber_id;
                assert(post[w].id == pre_tokens[a].subscriber_id);
            }
            assert forall|a: int|
                0 <= a < post.len() && post[a].status is PendingConfirmation implies exists|b: int|
                0 <= b < pre_tokens.len() && pre_tokens[b].subscriber_id == post[a].id by {
                assert(pre[a].status is PendingConfirmation);
                let w = choose|w: int|
                    0 <= w < pre_tokens.len() && pre_tokens[w].subscriber_id == pre[a].id;
                assert(pre_tokens[w].subscriber_id == post[a].id);
            }
        }
        true
    }
}

/// Law: a redemption never changes any subscriber's identifier.
pub proof fn lemma_confirm_keeps_ids(
    pre: Seq<SubscriberRecord>,
    post: Seq<SubscriberRecord>,
    id: u128,
)
    requires
        confirm_effect(pre, post, id),
    ensures
        forall|j: int| 0 <= j < pre.len() ==> post[j].id == pre[j].id,
{
}

/// Law: a subscriber's status is monotone — a redemption may move it from
/// pending to confirmed, never back.
pub proof fn lemma_confirm_status_monotone(
    pre: Seq<SubscriberRecord>,
    post: Seq<SubscriberRecord>,
    id: u128,
)
    requires
        confirm_effect(pre, post, id),
    ensures
        forall|j: int|
            0 <= j < pre.len() && pre[j].status is Confirmed ==> post[j].status is Confirmed,
{
}

/// Law: when subscriber identifiers are unique — as they are in every
/// well-formed store — a redemption changes at most one row.
pub proof fn lemma_confirm_touches_at_most_one(
    pre: Seq<SubscriberRecord>,
    post: Seq<SubscriberRecord>,
    id: u128,
)
    requires
        confirm_effect(pre, post, id),
        forall|i: int, j: int| 0 <= i < j < pre.len() ==> pre[i].id != pre[j].id,
    ensures
        forall|a: int, b: int|
            0 <= a < b < pre.len() ==> post[a] == pre[a] || post[b] == pre[b],
{
    assert forall|a: int, b: int|
        0 <= a < b < pre.len() implies post[a] == pre[a] || post[b] == pre[b] by {
        if post[a] != pre[a] && post[b] != pre[b] {
            assert(pre[a].id == id && pre[b].id == id);
        }
    }
}

/// Law: redeeming for the same subscriber a second time changes nothing —
/// the rows after two redemptions equal the rows after one.
pub proof fn lemma_confirm_idempotent(
    pre: Seq<SubscriberRecord>,
    mid: Seq<SubscriberRecord>,
    post: Seq<SubscriberRecord>,
    id: u128,
)
    requires
        confirm_effect(pre, mid, id),
        confirm_effect(mid, post, id),
    ensures
        post == mid,
{
    assert forall|j: int| 0 <= j < mid.len() implies post[j] == mid[j] by {
        if pre[j].id == id {
            assert(mid[j].id == id);
            assert(mid[j].status is Confirmed);
            assert(post[j].status is Confirmed);
        }
    }
    assert(post =~= mid);
}

} // verus!
