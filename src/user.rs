//! Account holders, their creation policy and the orders they own.
use vstd::prelude::*;
use crate::dyn_map::{DynMap, ExtValue, Extended};
use crate::lifecycle::{CanBeCreated, Create, SafeCreate};
use crate::persistence::DBConds;
use crate::product::{Order, Product};
use crate::values::{Date, Email, Id, Name};

verus! {

/// What is the state of the Account.
#[derive(Debug, Clone, Copy, PartialEq, Eq, Structural, PartialOrd, Ord, Hash)]
pub enum AccountState {
    Active,
    Dormant,
    Deleted,
}

/// Date at which a user signed up.
#[derive(Debug, Clone, Copy, PartialEq, Eq, Structural, PartialOrd, Ord, Hash)]
pub struct InscriptionDate(pub Date);

impl InscriptionDate {
    /// The current instant.
    pub fn new() -> (r: InscriptionDate)
        ensures
            r.0.wf(),
    {
        InscriptionDate(Date::now())
    }
}

impl Default for InscriptionDate {
    fn default() -> (r: InscriptionDate)
        ensures
            r.0.wf(),
    {
        InscriptionDate::new()
    }
}

/// A name that a user goes by.
#[derive(Debug, Clone, PartialEq, Eq, PartialOrd, Ord, Hash)]
pub struct UserName(pub Name);

/// What a `User` holds, as seen by contracts.
pub struct UserView {
    pub id: Id,
    pub name: Name,
    pub email: Email,
    pub inscription_date: InscriptionDate,
    pub account_state: AccountState,
    pub orders: Seq<Order>,
    pub ext: Map<Seq<char>, ExtValue>,
}

impl UserView {
    /// Every order names this user as its owner.
    pub open spec fn orders_carry_owner(self) -> bool {
        forall|i: int| 0 <= i < self.orders.len() ==> #[trigger] self.orders[i].from_user_id == self.id
    }
}

/// An account holder. Every order in its order list carries its current
/// identifier as the owning reference.
///
/// Of the lifecycle contracts, a user defines creation: `Create` from a name
/// and an email, and `CanBeCreated` from a store and the candidate email,
/// which refuses an email that the store already records. Deletion and update
/// policies are left to the embedding application.
#[derive(Debug)]
pub struct User {
    id: Id,
    name: Name,
    email: Email,
    inscription_date: InscriptionDate,
    account_state: AccountState,
    order_list: Vec<Order>,
    /// Optional data outside the user's shape.
    ext: DynMap,
}

impl User {
    pub closed spec fn view(&self) -> UserView {
        UserView {
            id: self.id,
            name: self.name,
            email: self.email,
            inscription_date: self.inscription_date,
            account_state: self.account_state,
            orders: self.order_list@,
            ext: self.ext@,
        }
    }

    /// Every order names this user as its owner.
    pub open spec fn wf(&self) -> bool {
        self@.orders_carry_owner()
    }

    /// A new active user with a fresh identifier, signed up now, with no
    /// orders and no extension data.
    pub fn new(name: Name, email: Email) -> (r: User)
        ensures
            r@.name == name,
            r@.email == email,
            r@.account_state == AccountState::Active,
            r@.orders == Seq::<Order>::empty(),
            r@.ext == Map::<Seq<char>, ExtValue>::empty(),
            r@.id.wf(),
            r@.inscription_date.0.wf(),
            r.wf(),
    {
        let id = Id::new();
        let inscription_date = InscriptionDate::new();
        let account_state = AccountState::Active;
        User {
            id,
            name,
            email,
            inscription_date,
            account_state,
            order_list: Vec::new(),
            ext: DynMap::new(),
        }
    }

    pub fn get_name(&self) -> (r: &Name)
        ensures
            *r == self@.name,
    {
        &self.name
    }

    pub fn set_name(&mut self, new: Name)
        ensures
            final(self)@ == (UserView { name: new, ..old(self)@ }),
    {
        self.name = new;
    }

    pub fn get_id(&self) -> (r: &Id)
        ensures
            *r == self@.id,
    {
        &self.id
    }

    pub fn id(&self) -> (r: &Id)
        ensures
            *r == self@.id,
    {
        &self.id
    }

    /// Reassigns the identifier and moves every order over to it.
    pub fn set_id(&mut self, new: Id)
        ensures
            final(self)@.id == new,
            final(self)@.orders.len() == old(self)@.orders.len(),
            forall|i: int|
                0 <= i < old(self)@.orders.len() ==> #[trigger] final(self)@.orders[i] == (Order {
                    from_user_id: new,
                    ..old(self)@.orders[i]
                }),
            final(self)@ == (UserView { id: new, orders: final(self)@.orders, ..old(self)@ }),
            final(self).wf(),
    {
        let mut taken: Vec<Order> = Vec::new();
        std::mem::swap(&mut self.order_list, &mut taken);
        let ghost orig = taken@;
        let mut patched: Vec<Order> = Vec::new();
        while taken.len() > 0
            invariant
                patched@.len() + taken@.len() == orig.len(),
                taken@ == orig.subrange(patched@.len() as int, orig.len() as int),
                forall|j: int|
                    0 <= j < patched@.len() ==> #[trigger] patched@[j] == (Order {
                        from_user_id: new,
                        ..orig[j]
                    }),
            decreases taken@.len(),
        {
            let mut order = taken.remove(0);
            order.from_user_id = new;
            patched.push(order);
        }
        self.id = new;
        self.order_list = patched;
    }

    pub fn get_email(&self) -> (r: &Email)
        ensures
            *r == self@.email,
    {
        &self.email
    }

    pub fn set_email(&mut self, new: Email)
        ensures
            final(self)@ == (UserView { email: new, ..old(self)@ }),
    {
        self.email = new;
    }

    pub fn get_inscription_date(&self) -> (r: &InscriptionDate)
        ensures
            *r == self@.inscription_date,
    {
        &self.inscription_date
    }

    pub fn set_inscription_date(&mut self, new: InscriptionDate)
        ensures
            final(self)@ == (UserView { inscription_date: new, ..old(self)@ }),
    {
        self.inscription_date = new;
    }

    pub fn get_account_state(&self) -> (r: &AccountState)
        ensures
            *r == self@.account_state,
    {
        &self.account_state
    }

    pub fn set_account_state(&mut self, new: AccountState)
        ensures
            final(self)@ == (UserView { account_state: new, ..old(self)@ }),
    {
        self.account_state = new;
    }

    /// Marks the account as deleted; the user itself lives on.
    pub fn delete_account(&mut self)
        ensures
            final(self)@ == (UserView { account_state: AccountState::Deleted, ..old(self)@ }),
    {
        self.account_state = AccountState::Deleted;
    }

    /// The user's orders, oldest first.
    pub fn order_list(&self) -> (r: &Vec<Order>)
        ensures
            r@ == self@.orders,
    {
        &self.order_list
    }

    /// Places a new order of `product`, owned by this user.
    pub fn place_order(&mut self, product: Product)
        requires
            old(self).wf(),
        ensures
            final(self).wf(),
            final(self)@.orders.len() == old(self)@.orders.len() + 1,
            final(self)@.orders.last().product == product,
            final(self)@.orders.last().from_user_id == old(self)@.id,
            final(self)@ == (UserView { orders: final(self)@.orders, ..old(self)@ }),
            final(self)@.orders.drop_last() == old(self)@.orders,
    {
        let order = Order::new(self.id, product);
        self.order_list.push(order);
    }
}

impl<'a, DB> CanBeCreated<(DB, &'a Email)> for User where DB: DBConds<&'a Email> {
    /// A user may be created unless the store already records the email.
    open spec fn creation_allowed(conds: (DB, &'a Email)) -> bool {
        !conds.0.records(conds.1)
    }

    fn can_be_created(conds: (DB, &'a Email)) -> (r: bool) {
        let (db, email) = conds;
        if db.record_exists(email) {
            false
        } else {
            true
        }
    }
}

impl Create<(Name, Email)> for User {
    /// A new active user with the given name and email, a fresh identifier,
    /// no orders and no extension data.
    open spec fn created_from(ctx: (Name, Email), made: User) -> bool {
        &&& made@.name == ctx.0
        &&& made@.email == ctx.1
        &&& made@.account_state == AccountState::Active
        &&& made@.orders == Seq::<Order>::empty()
        &&& made@.ext == Map::<Seq<char>, ExtValue>::empty()
        &&& made@.id.wf()
        &&& made@.inscription_date.0.wf()
        &&& made.wf()
    }

    fn create(ctx: (Name, Email)) -> (r: User) {
        let (name, email) = ctx;
        User::new(name, email)
    }
}

impl<'a, DB> SafeCreate<(Name, Email), (DB, &'a Email)> for User where DB: DBConds<&'a Email> {}

/// When the store already records the candidate email, the creation policy
/// refuses, so `safe_create` returns nothing and never runs `create`.
pub proof fn lemma_recorded_email_refused<'a, DB: DBConds<&'a Email>>(db: DB, email: &'a Email)
    requires
        db.records(email),
    ensures
        !<User as CanBeCreated<(DB, &'a Email)>>::creation_allowed((db, email)),
{
}

/// When the store does not record the candidate email, the creation policy
/// admits it, so `safe_create` returns a user whose name and email are the
/// candidate's, whose account is active and whose identifier is freshly minted.
pub proof fn lemma_unrecorded_email_admitted<'a, DB: DBConds<&'a Email>>(
    db: DB,
    name: Name,
    email: &'a Email,
    made: User,
)
    requires
        !db.records(email),
    ensures
        <User as CanBeCreated<(DB, &'a Email)>>::creation_allowed((db, email)),
        <User as Create<(Name, Email)>>::created_from((name, *email), made) ==> {
            &&& made@.name == name
            &&& made@.email == *email
            &&& made@.account_state == AccountState::Active
            &&& made@.id.wf()
        },
{
}

impl Extended for User {
    fn extended_content(&self) -> &DynMap {
        &self.ext
    }

    fn extended_content_mut(&mut self) -> &mut DynMap {
        &mut self.ext
    }
}

} // verus!
