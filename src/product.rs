//! Products and the orders that capture them.
use vstd::prelude::*;
use crate::values::{Date, Id, Name};

verus! {

/// Date at which a product was introduced.
#[derive(Debug, Clone, Copy, PartialEq, Eq, Structural, PartialOrd, Ord, Hash)]
pub struct IntroductionDate(pub Date);

/// Date at which a product reaches its end of life.
#[derive(Debug, Clone, Copy, PartialEq, Eq, Structural, PartialOrd, Ord, Hash)]
pub struct ProductEndDate(pub Date);

/// Date at which an order was placed.
#[derive(Debug, Clone, Copy, PartialEq, Eq, Structural, PartialOrd, Ord, Hash)]
pub struct OrderDate(pub Date);

/// The name of a product.
#[derive(Debug, Clone, PartialEq, Eq, PartialOrd, Ord, Hash)]
pub struct ProductName(pub Name);

/// The first name of a product's owner.
#[derive(Debug, Clone, PartialEq, Eq, PartialOrd, Ord, Hash)]
pub struct OwnerFirstName(pub Name);

/// The last name of a product's owner.
#[derive(Debug, Clone, PartialEq, Eq, PartialOrd, Ord, Hash)]
pub struct OwnerLastName(pub Name);

#[derive(Debug, Clone, PartialEq, Eq, PartialOrd, Ord, Hash)]
pub struct Product {
    pub id: Id,
    pub introduction_date: IntroductionDate,
    pub product_name: ProductName,
    pub end_date: Option<ProductEndDate>,
}

impl Product {
    /// Create a new product. It will have a unique `Id` and its introduction
    /// will be the current instant when this function is called.
    pub fn new(product_name: ProductName, end_date: Option<ProductEndDate>) -> (r: Product)
        ensures
            r.id.wf(),
            r.introduction_date.0.wf(),
            r.product_name == product_name,
            r.end_date == end_date,
    {
        Product {
            id: Id::new(),
            introduction_date: IntroductionDate(Date::now()),
            product_name,
            end_date,
        }
    }
}

/// An order: a snapshot of a product, taken by a user at some instant.
#[derive(Debug, Clone, PartialEq, Eq, PartialOrd, Ord, Hash)]
pub struct Order {
    pub date: OrderDate,
    pub product: Product,
    pub from_user_id: Id,
    pub id: Id,
}

impl Order {
    /// A new order of `product` by the user `from_user`, stamped now.
    pub fn new(from_user: Id, product: Product) -> (r: Order)
        ensures
            r.from_user_id == from_user,
            r.product == product,
            r.id.wf(),
            r.date.0.wf(),
    {
        Order { date: OrderDate(Date::now()), product, from_user_id: from_user, id: Id::new() }
    }
}

} // verus!
