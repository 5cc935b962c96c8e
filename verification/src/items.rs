use vstd::prelude::*;

verus! {

/// An item of the stock, with its minimum and optional maximum stock level.
#[derive(Debug, Clone)]
pub struct Item {
    pub id: i32,
    pub name: String,
    pub min_stock: i32,
    pub max_stock: Option<i32>,
    pub stock: i32,
}

/// The fields of an item to create; it starts with no stock.
#[derive(Debug, Clone)]
pub struct NewItemRequest {
    pub name: String,
    pub min_stock: i32,
    pub max_stock: Option<i32>,
}

/// The new fields of an existing item; its stock is not changed this way.
#[derive(Debug, Clone)]
pub struct UpdateItemRequest {
    pub id: i32,
    pub name: String,
    pub min_stock: i32,
    pub max_stock: Option<i32>,
}

/// An item as the first version of the service knew it, whose minimum stock was optional.
#[derive(Debug, Clone)]
pub struct ItemInformation {
    pub id: i32,
    pub name: String,
    pub min_stock: Option<i32>,
    pub max_stock: Option<i32>,
    pub stock: i32,
}

} // verus!
