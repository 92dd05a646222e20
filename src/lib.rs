//! Entities of a small catalog (users, products, orders) whose lifecycle
//! transitions are gated behind explicit, checkable policies.

pub mod dyn_map;
pub mod lifecycle;
pub mod persistence;
pub mod product;
pub mod user;
pub mod values;

pub use crate::lifecycle::{
    CanBeCreated, CanBeDeleted, CanBeUpdated, Create, Delete, SafeCreate, SafeDelete, SafeUpdate,
    Update,
};
pub use crate::persistence::DBConds;
pub use crate::product::{
    IntroductionDate, Order, OrderDate, OwnerFirstName, OwnerLastName, Product, ProductEndDate,
    ProductName,
};
pub use crate::values::{Date, Email, Id, Name};
pub use crate::dyn_map::{DynMap, ExtValue, Extended};
pub use crate::user::{AccountState, InscriptionDate, User, UserName, UserView};
