//! The subscriber store: subscribers, their confirmation tokens and the one
//! status transition.

use crate::domain::{email_is_valid, name_is_valid, NewSubscriber, SubscriberEmail, SubscriberName};
use crate::token::{token_is_well_formed, Token};
use vstd::prelude::*;

verus! {

/// Where a subscriber stands in the confirmation workflow.
#[derive(Clone, Copy, Debug, PartialEq, Eq, Structural)]
pub enum SubscriberStatus {
    PendingConfirmation,
    Confirmed,
}

/// Identifies one subscriber of one store: the number of subscribers that
/// the store held before this one.
#[derive(Clone, Copy, Debug, PartialEq, Eq, Structural)]
pub struct SubscriberId(pub usize);

/// One subscriber as the store holds it.
#[derive(Debug, PartialEq, Eq)]
pub struct Subscriber {
    pub id: SubscriberId,
    pub email: SubscriberEmail,
    pub name: SubscriberName,
    pub status: SubscriberStatus,
    pub subscribed_at: i64,
}

/// One confirmation token as the store holds it.
#[derive(Debug, PartialEq, Eq)]
pub struct ConfirmationToken {
    pub token: Token,
    pub subscriber_id: SubscriberId,
}

/// Why the store turned an operation down.
#[derive(Clone, Copy, Debug, PartialEq, Eq, Structural)]
pub enum StoreError {
    /// No such token was ever issued.
    TokenNotFound,
    /// An unexpected storage fault, such as a token that is already taken.
    Internal,
}

/// A subscriber as contracts see it. Its identifier is its position in
/// `StoreView::subscribers`.
pub struct SubscriberRecord {
    pub email: Seq<char>,
    pub name: Seq<char>,
    pub status: SubscriberStatus,
    pub subscribed_at: i64,
}

/// The store as contracts see it: the subscribers in the order of their
/// creation, and for each issued token the subscriber it belongs to.
pub struct StoreView {
    pub subscribers: Seq<SubscriberRecord>,
    pub tokens: Map<Seq<char>, nat>,
}

impl StoreView {
    /// The store that holds nothing.
    pub open spec fn empty() -> StoreView {
        StoreView { subscribers: Seq::empty(), tokens: Map::empty() }
    }

    /// Every subscriber holds validated data, every token has the shape of a
    /// token and belongs to a subscriber that exists.
    pub open spec fn wf(self) -> bool {
        &&& self.tokens.dom().finite()
        &&& forall|t: Seq<char>| #[trigger]
            self.tokens.dom().contains(t) ==> token_is_well_formed(t) && self.tokens[t]
                < self.subscribers.len()
        &&& forall|i: int|
            0 <= i < self.subscribers.len() ==> name_is_valid(
                (#[trigger] self.subscribers[i]).name,
            ) && email_is_valid(self.subscribers[i].email)
    }

    /// Whether `token` was issued.
    pub open spec fn has_token(self, token: Seq<char>) -> bool {
        self.tokens.dom().contains(token)
    }

    /// The subscriber that `token` belongs to, if it was issued.
    pub open spec fn resolve(self, token: Seq<char>) -> Option<nat> {
        if self.has_token(token) {
            Some(self.tokens[token])
        } else {
            None
        }
    }

    /// The status of subscriber `id`, if there is such a subscriber.
    pub open spec fn status_of(self, id: nat) -> Option<SubscriberStatus> {
        if id < self.subscribers.len() {
            Some(self.subscribers[id as int].status)
        } else {
            None
        }
    }

    /// The store after a new subscriber and its token were written.
    pub open spec fn create(
        self,
        email: Seq<char>,
        name: Seq<char>,
        token: Seq<char>,
        now: i64,
    ) -> StoreView {
        StoreView {
            subscribers: self.subscribers.push(
                SubscriberRecord {
                    email,
                    name,
                    status: SubscriberStatus::PendingConfirmation,
                    subscribed_at: now,
                },
            ),
            tokens: self.tokens.insert(token, self.subscribers.len()),
        }
    }

    /// The store after `token` was redeemed: the subscriber it belongs to is
    /// confirmed, and nothing else differs. An unknown token changes nothing.
    pub open spec fn confirm(self, token: Seq<char>) -> StoreView {
        if self.has_token(token) && self.tokens[token] < self.subscribers.len() {
            let id = self.tokens[token] as int;
            StoreView {
                subscribers: self.subscribers.update(
                    id,
                    SubscriberRecord {
                        status: SubscriberStatus::Confirmed,
                        ..self.subscribers[id]
                    },
                ),
                tokens: self.tokens,
            }
        } else {
            self
        }
    }
}

/// A subscriber that was just written awaits confirmation, holds the data
/// that was submitted, and is the one its token resolves to.
pub proof fn lemma_created_subscriber_awaits_confirmation(
    v: StoreView,
    email: Seq<char>,
    name: Seq<char>,
    token: Seq<char>,
    now: i64,
)
    ensures
        ({
            let w = v.create(email, name, token, now);
            let id = v.subscribers.len();
            &&& w.resolve(token) == Some(id)
            &&& w.status_of(id) == Some(SubscriberStatus::PendingConfirmation)
            &&& w.subscribers.len() == id + 1
            &&& w.subscribers[id as int].email == email
            &&& w.subscribers[id as int].name == name
            &&& w.subscribers[id as int].subscribed_at == now
        }),
{
}

/// Writing a subscriber with a token that is not yet taken leaves every
/// earlier subscriber as it was, and every earlier token with its owner.
pub proof fn lemma_create_keeps_the_rest(
    v: StoreView,
    email: Seq<char>,
    name: Seq<char>,
    token: Seq<char>,
    now: i64,
)
    requires
        !v.has_token(token),
    ensures
        ({
            let w = v.create(email, name, token, now);
            &&& forall|id: int|
                0 <= id < v.subscribers.len() ==> #[trigger] w.subscribers[id] == v.subscribers[id]
            &&& forall|t: Seq<char>| #[trigger]
                v.has_token(t) ==> w.resolve(t) == v.resolve(t)
            &&& forall|t: Seq<char>| #[trigger] w.has_token(t) ==> t == token || v.has_token(t)
        }),
{
}

/// A store stays well formed when validated data is written with a token of
/// the right shape.
pub proof fn lemma_create_preserves_wf(
    v: StoreView,
    email: Seq<char>,
    name: Seq<char>,
    token: Seq<char>,
    now: i64,
)
    requires
        v.wf(),
        email_is_valid(email),
        name_is_valid(name),
        token_is_well_formed(token),
    ensures
        v.create(email, name, token, now).wf(),
{
    let w = v.create(email, name, token, now);
    assert forall|i: int| 0 <= i < w.subscribers.len() implies name_is_valid(
        (#[trigger] w.subscribers[i]).name,
    ) && email_is_valid(w.subscribers[i].email) by {
        if i < v.subscribers.len() {
            assert(w.subscribers[i] == v.subscribers[i]);
        }
    }
}

/// An unknown token changes nothing.
pub proof fn lemma_unknown_token_changes_nothing(v: StoreView, token: Seq<char>)
    requires
        !v.has_token(token),
    ensures
        v.confirm(token) == v,
{
}

/// Redeeming a token confirms the subscriber it belongs to, keeps that
/// subscriber's data, and leaves every other subscriber and every token as
/// they were.
pub proof fn lemma_confirm_touches_only_the_owner(v: StoreView, token: Seq<char>)
    requires
        v.wf(),
        v.has_token(token),
    ensures
        ({
            let w = v.confirm(token);
            let owner = v.tokens[token] as int;
            &&& w.tokens == v.tokens
            &&& w.subscribers.len() == v.subscribers.len()
            &&& w.status_of(owner as nat) == Some(SubscriberStatus::Confirmed)
            &&& w.subscribers[owner].email == v.subscribers[owner].email
            &&& w.subscribers[owner].name == v.subscribers[owner].name
            &&& w.subscribers[owner].subscribed_at == v.subscribers[owner].subscribed_at
            &&& forall|id: int|
                0 <= id < v.subscribers.len() && id != owner ==> #[trigger] w.subscribers[id]
                    == v.subscribers[id]
        }),
{
}

/// Redeeming a token a second time changes nothing more, and the token is
/// as valid as it was.
pub proof fn lemma_confirm_is_idempotent(v: StoreView, token: Seq<char>)
    requires
        v.wf(),
    ensures
        v.confirm(token).confirm(token) == v.confirm(token),
        v.confirm(token).has_token(token) == v.has_token(token),
{
    let w = v.confirm(token);
    if v.has_token(token) {
        assert(w.confirm(token).subscribers =~= w.subscribers);
    }
}

/// A store stays well formed when a token is redeemed.
pub proof fn lemma_confirm_preserves_wf(v: StoreView, token: Seq<char>)
    requires
        v.wf(),
    ensures
        v.confirm(token).wf(),
{
    let w = v.confirm(token);
    if v.has_token(token) {
        let owner = v.tokens[token] as int;
        assert forall|i: int| 0 <= i < w.subscribers.len() implies name_is_valid(
            (#[trigger] w.subscribers[i]).name,
        ) && email_is_valid(w.subscribers[i].email) by {
            assert(w.subscribers[i].name == v.subscribers[i].name);
            assert(w.subscribers[i].email == v.subscribers[i].email);
        }
    }
}

/// Two tokens of one subscriber confirm alike.
pub proof fn lemma_tokens_of_one_subscriber_confirm_alike(
    v: StoreView,
    first: Seq<char>,
    second: Seq<char>,
)
    requires
        v.has_token(first),
        v.has_token(second),
        v.tokens[first] == v.tokens[second],
    ensures
        v.confirm(first) == v.confirm(second),
{
}

/// No operation takes a confirmation back: a confirmed subscriber is still
/// confirmed after any token is redeemed and after any subscriber is written.
pub proof fn lemma_confirmed_stays_confirmed(
    v: StoreView,
    id: nat,
    token: Seq<char>,
    email: Seq<char>,
    name: Seq<char>,
    now: i64,
)
    requires
        v.status_of(id) == Some(SubscriberStatus::Confirmed),
    ensures
        v.confirm(token).status_of(id) == Some(SubscriberStatus::Confirmed),
        v.create(email, name, token, now).status_of(id) == Some(SubscriberStatus::Confirmed),
{
}

/// Only redeeming one of a subscriber's own tokens changes its status: any
/// other token leaves it as it was.
pub proof fn lemma_status_changes_only_by_own_token(v: StoreView, id: nat, token: Seq<char>)
    requires
        v.resolve(token) != Some(id),
    ensures
        v.confirm(token).status_of(id) == v.status_of(id),
{
}

impl SubscriberStatus {
    /// The status as the subscribers table spells it.
    pub fn as_str(&self) -> (s: &'static str)
        ensures
            s@ == match *self {
                SubscriberStatus::PendingConfirmation => "pending_confirmation"@,
                SubscriberStatus::Confirmed => "confirmed"@,
            },
    {
        match self {
            SubscriberStatus::PendingConfirmation => "pending_confirmation",
            SubscriberStatus::Confirmed => "confirmed",
        }
    }
}

/// What the contracts see of one stored subscriber.
pub open spec fn record_of(s: Subscriber) -> SubscriberRecord {
    SubscriberRecord {
        email: s.email@,
        name: s.name@,
        status: s.status,
        subscribed_at: s.subscribed_at,
    }
}

/// What the contracts see of the subscribers table.
spec fn records_of(rows: Seq<Subscriber>) -> Seq<SubscriberRecord> {
    Seq::new(rows.len(), |i: int| record_of(rows[i]))
}

/// Whether a row of `rows` holds the token `t`.
spec fn rows_hold(rows: Seq<ConfirmationToken>, t: Seq<char>) -> bool {
    exists|i: int| 0 <= i < rows.len() && (#[trigger] rows[i]).token@ == t
}

/// What the contracts see of the tokens table.
spec fn owners_of(rows: Seq<ConfirmationToken>) -> Map<Seq<char>, nat> {
    Map::new(
        |t: Seq<char>| rows_hold(rows, t),
        |t: Seq<char>|
            {
                let i = choose|i: int| 0 <= i < rows.len() && (#[trigger] rows[i]).token@ == t;
                rows[i].subscriber_id.0 as nat
            },
    )
}

/// Whether no two rows of `rows` hold the same token.
spec fn rows_are_distinct(rows: Seq<ConfirmationToken>) -> bool {
    forall|i: int, j: int|
        0 <= i < j < rows.len() ==> (#[trigger] rows[i]).token@ != (#[trigger] rows[j]).token@
}

/// In a table without duplicates each token's owner is the one its row names.
proof fn lemma_owner_of_row(rows: Seq<ConfirmationToken>, i: int)
    requires
        rows_are_distinct(rows),
        0 <= i < rows.len(),
    ensures
        owners_of(rows).dom().contains(rows[i].token@),
        owners_of(rows)[rows[i].token@] == rows[i].subscriber_id.0,
{
    let t = rows[i].token@;
    let k = choose|k: int| 0 <= k < rows.len() && (#[trigger] rows[k]).token@ == t;
    assert(k == i);
}

/// Writing a row with a token that no row holds adds that token, with its
/// owner, and leaves the others as they were.
proof fn lemma_owners_after_push(rows: Seq<ConfirmationToken>, row: ConfirmationToken)
    requires
        rows_are_distinct(rows),
        !rows_hold(rows, row.token@),
    ensures
        rows_are_distinct(rows.push(row)),
        owners_of(rows.push(row)) == owners_of(rows).insert(
            row.token@,
            row.subscriber_id.0 as nat,
        ),
{
    let after = rows.push(row);
    assert(rows_are_distinct(after)) by {
        assert forall|i: int, j: int| 0 <= i < j < after.len() implies (#[trigger] after[i]).token@
            != (#[trigger] after[j]).token@ by {
            if j == rows.len() {
                assert(rows[i].token@ == after[i].token@);
            } else {
                assert(rows[i] == after[i] && rows[j] == after[j]);
            }
        }
    }
    let expected = owners_of(rows).insert(row.token@, row.subscriber_id.0 as nat);
    assert forall|t: Seq<char>| owners_of(after).dom().contains(t) == expected.dom().contains(
        t,
    ) by {
        if rows_hold(rows, t) {
            let i = choose|i: int| 0 <= i < rows.len() && (#[trigger] rows[i]).token@ == t;
            assert(after[i].token@ == t);
        }
        if rows_hold(after, t) && t != row.token@ {
            let i = choose|i: int| 0 <= i < after.len() && (#[trigger] after[i]).token@ == t;
            assert(rows[i].token@ == t);
        }
        if t == row.token@ {
            assert(after[rows.len() as int].token@ == t);
        }
    }
    assert forall|t: Seq<char>| owners_of(after).dom().contains(t) implies owners_of(after)[t]
        == expected[t] by {
        let i = choose|i: int| 0 <= i < after.len() && (#[trigger] after[i]).token@ == t;
        lemma_owner_of_row(after, i);
        if i < rows.len() {
            assert(rows[i] == after[i]);
            lemma_owner_of_row(rows, i);
        }
    }
    assert(owners_of(after) =~= expected);
}

/// The subscribers and the confirmation tokens, held in memory. A change
/// either happens whole or not at all.
#[derive(Debug)]
pub struct SubscriptionStore {
    subscribers: Vec<Subscriber>,
    tokens: Vec<ConfirmationToken>,
}

impl View for SubscriptionStore {
    type V = StoreView;

    closed spec fn view(&self) -> StoreView {
        StoreView { subscribers: records_of(self.subscribers@), tokens: owners_of(self.tokens@) }
    }
}

impl SubscriptionStore {
    #[verifier::type_invariant]
    spec fn well_formed(&self) -> bool {
        &&& forall|i: int|
            0 <= i < self.subscribers@.len() ==> {
                &&& (#[trigger] self.subscribers@[i]).id.0 == i
                &&& name_is_valid(self.subscribers@[i].name@)
                &&& email_is_valid(self.subscribers@[i].email@)
            }
        &&& forall|i: int|
            0 <= i < self.tokens@.len() ==> {
                &&& (#[trigger] self.tokens@[i]).subscriber_id.0 < self.subscribers@.len()
                &&& token_is_well_formed(self.tokens@[i].token@)
            }
        &&& rows_are_distinct(self.tokens@)
        &&& owners_of(self.tokens@).dom().finite()
        &&& owners_of(self.tokens@).dom().len() == self.tokens@.len()
    }

    /// What the type's invariant means for the view.
    proof fn lemma_view_wf(&self)
        requires
            self.well_formed(),
        ensures
            self@.wf(),
    {
        assert forall|t: Seq<char>| #[trigger] self@.tokens.dom().contains(t) implies
            token_is_well_formed(t) && self@.tokens[t] < self@.subscribers.len() by {
            let i = choose|i: int|
                0 <= i < self.tokens@.len() && (#[trigger] self.tokens@[i]).token@ == t;
            lemma_owner_of_row(self.tokens@, i);
        }
    }

    /// A store that holds nothing.
    pub fn new() -> (store: SubscriptionStore)
        ensures
            store@ == StoreView::empty(),
            store@.wf(),
    {
        let subscribers: Vec<Subscriber> = Vec::new();
        let tokens: Vec<ConfirmationToken> = Vec::new();
        proof {
            assert(owners_of(tokens@).dom() =~= Set::<Seq<char>>::empty());
            assert(owners_of(tokens@) =~= Map::<Seq<char>, nat>::empty());
            assert(records_of(subscribers@) =~= Seq::<SubscriberRecord>::empty());
        }
        let store = SubscriptionStore { subscribers, tokens };
        store
    }

    /// The position of the row that holds the token `text`, if there is one.
    fn find_row(&self, text: &String) -> (r: Option<usize>)
        ensures
            match r {
                Some(i) => i < self.tokens@.len() && self.tokens@[i as int].token@ == text@,
                None => !rows_hold(self.tokens@, text@),
            },
    {
        let mut i: usize = 0;
        while i < self.tokens.len()
            invariant
                i <= self.tokens@.len(),
                forall|j: int| 0 <= j < i ==> (#[trigger] self.tokens@[j]).token@ != text@,
            decreases self.tokens@.len() - i,
        {
            if self.tokens[i].token.same_text(text) {
                return Some(i);
            }
            i += 1;
        }
        None
    }

    /// Does nothing; tells the caller that the store is well formed.
    pub fn check_invariant(&self)
        ensures
            self@.wf(),
    {
        proof {
            use_type_invariant(self);
            self.lemma_view_wf();
        }
    }

    /// The number of subscribers.
    pub fn subscriber_count(&self) -> (n: usize)
        ensures
            n == self@.subscribers.len(),
    {
        self.subscribers.len()
    }

    /// The number of tokens issued.
    pub fn token_count(&self) -> (n: usize)
        ensures
            self@.tokens.dom().finite(),
            n == self@.tokens.dom().len(),
    {
        proof {
            use_type_invariant(self);
        }
        self.tokens.len()
    }

    /// The subscriber that `token` belongs to, if it was issued.
    pub fn resolve(&self, token: &str) -> (r: Option<SubscriberId>)
        ensures
            self@.wf(),
            match r {
                Some(id) => self@.resolve(token@) == Some(id.0 as nat),
                None => self@.resolve(token@) is None,
            },
    {
        proof {
            use_type_invariant(self);
            self.lemma_view_wf();
        }
        let text = String::from_str(token);
        match self.find_row(&text) {
            Some(i) => {
                proof {
                    lemma_owner_of_row(self.tokens@, i as int);
                }
                Some(self.tokens[i].subscriber_id)
            },
            None => None,
        }
    }

    /// The subscriber with identifier `id`, if there is one.
    pub fn subscriber(&self, id: SubscriberId) -> (r: Option<&Subscriber>)
        ensures
            self@.wf(),
            match r {
                Some(s) => id.0 < self@.subscribers.len() && s.id == id && record_of(*s)
                    == self@.subscribers[id.0 as int],
                None => id.0 >= self@.subscribers.len(),
            },
    {
        proof {
            use_type_invariant(self);
            self.lemma_view_wf();
        }
        if id.0 < self.subscribers.len() {
            Some(&self.subscribers[id.0])
        } else {
            None
        }
    }

    /// The status of subscriber `id`, if there is such a subscriber.
    pub fn status_of(&self, id: SubscriberId) -> (r: Option<SubscriberStatus>)
        ensures
            r == self@.status_of(id.0 as nat),
    {
        if id.0 < self.subscribers.len() {
            Some(self.subscribers[id.0].status)
        } else {
            None
        }
    }

    /// Writes a subscriber awaiting confirmation together with its token.
    /// Fails, and changes nothing, exactly where the token is already taken.
    pub fn create(&mut self, subscriber: NewSubscriber, token: Token, now: i64) -> (r: Result<
        SubscriberId,
        StoreError,
    >)
        ensures
            final(self)@.wf(),
            match r {
                Ok(id) => {
                    &&& !old(self)@.has_token(token@)
                    &&& id.0 == old(self)@.subscribers.len()
                    &&& final(self)@ == old(self)@.create(
                        subscriber.email@,
                        subscriber.name@,
                        token@,
                        now,
                    )
                },
                Err(e) => {
                    &&& e == StoreError::Internal
                    &&& old(self)@.has_token(token@)
                    &&& final(self)@ == old(self)@
                },
            },
    {
        proof {
            use_type_invariant(&*self);
            self.lemma_view_wf();
        }
        let text = String::from_str(token.as_str());
        if self.find_row(&text).is_some() {
            return Err(StoreError::Internal);
        }
        let _ = subscriber.name.as_str();
        let _ = subscriber.email.as_str();
        let id = SubscriberId(self.subscribers.len());
        let ghost rows = self.tokens@;
        let ghost people = self.subscribers@;
        let row = ConfirmationToken { token, subscriber_id: id };
        let person = Subscriber {
            id,
            email: subscriber.email,
            name: subscriber.name,
            status: SubscriberStatus::PendingConfirmation,
            subscribed_at: now,
        };
        proof {
            lemma_owners_after_push(rows, row);
            assert(records_of(people.push(person)) =~= records_of(people).push(record_of(person)));
        }
        let mut taken = SubscriptionStore::new();
        std::mem::swap(self, &mut taken);
        let SubscriptionStore { mut subscribers, mut tokens } = taken;
        subscribers.push(person);
        tokens.push(row);
        *self = SubscriptionStore { subscribers, tokens };
        proof {
            self.lemma_view_wf();
        }
        Ok(id)
    }

    /// Redeems `token`: the subscriber it belongs to is confirmed from now
    /// on. Fails, and changes nothing, exactly where no such token was
    /// issued.
    pub fn confirm(&mut self, token: &str) -> (r: Result<(), StoreError>)
        ensures
            final(self)@.wf(),
            final(self)@ == old(self)@.confirm(token@),
            match r {
                Ok(()) => old(self)@.has_token(token@),
                Err(e) => e == StoreError::TokenNotFound && !old(self)@.has_token(token@),
            },
    {
        proof {
            use_type_invariant(&*self);
            self.lemma_view_wf();
        }
        let text = String::from_str(token);
        match self.find_row(&text) {
            None => Err(StoreError::TokenNotFound),
            Some(i) => {
                let id: usize = self.tokens[i].subscriber_id.0;
                let ghost people = self.subscribers@;
                proof {
                    lemma_owner_of_row(self.tokens@, i as int);
                }
                let mut taken = SubscriptionStore::new();
                std::mem::swap(self, &mut taken);
                let SubscriptionStore { mut subscribers, tokens } = taken;
                subscribers[id].status = SubscriberStatus::Confirmed;
                *self = SubscriptionStore { subscribers, tokens };
                proof {
                    assert(records_of(self.subscribers@) =~= records_of(people).update(
                        id as int,
                        SubscriberRecord {
                            status: SubscriberStatus::Confirmed,
                            ..records_of(people)[id as int]
                        },
                    ));
                    self.lemma_view_wf();
                }
                Ok(())
            },
        }
    }
}

} // verus!
