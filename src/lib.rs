//! Row versions and the snapshot visibility rule of a multi-version row store.
pub mod row;
pub mod value;
pub mod visibility;
