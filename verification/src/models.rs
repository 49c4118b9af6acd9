//! The records of the exported data: addresses, vendors, customers and
//! items. They are plain records; amounts are kept as whole numbers of
//! their smallest unit.

use vstd::prelude::*;
use vstd::string::*;

verus! {

/// A postal address.
#[derive(Debug)]
pub struct Address {
    pub address_id: i64,
    pub country: String,
    pub street: String,
    pub city: String,
    pub state: String,
    pub zip: String,
}

/// A vendor, with the people to reach there.
#[derive(Debug)]
pub struct Vendor {
    pub vendor_id: i64,
    pub code: String,
    pub name: String,
    pub purchaser_acct_number: Option<String>,
    pub email: Option<String>,
    pub salesperson: Option<String>,
    pub salesperson_phone: Option<String>,
    pub address_id: Option<i64>,
}

/// A customer.
#[derive(Debug)]
pub struct Customer {
    pub customer_id: i64,
    pub code: String,
    pub name: String,
    pub address_id: Option<i64>,
    pub phone: Option<String>,
    pub email: Option<String>,
}

/// An item of stock. Costs have six decimal places, retail prices and
/// quantities two.
#[derive(Debug)]
pub struct Item {
    pub item_id: i64,
    pub sku: String,
    pub secondary_skus: Option<String>,
    pub upcs: Option<String>,
    pub description: String,
    pub cost: i64,
    pub retail: i64,
    pub primary_vendor_id: Option<i64>,
    pub stock_qty: i64,
    pub mtd_buy_qty: i64,
    pub mtd_sell_qty: i64,
    pub year_sell_qty: i64,
    pub year_buy_qty: i64,
}

impl Address {
    /// The blank address: number zero, every text empty.
    pub fn new() -> (address: Address)
        ensures
            address.address_id == 0,
            address.country@ == Seq::<char>::empty(),
            address.street@ == Seq::<char>::empty(),
            address.city@ == Seq::<char>::empty(),
            address.state@ == Seq::<char>::empty(),
            address.zip@ == Seq::<char>::empty(),
    {
        Address {
            address_id: 0,
            country: String::new(),
            street: String::new(),
            city: String::new(),
            state: String::new(),
            zip: String::new(),
        }
    }
}

impl Vendor {
    /// The blank vendor: number zero, code and name empty, nothing else
    /// known.
    pub fn new() -> (vendor: Vendor)
        ensures
            vendor.vendor_id == 0,
            vendor.code@ == Seq::<char>::empty(),
            vendor.name@ == Seq::<char>::empty(),
            vendor.purchaser_acct_number is None,
            vendor.email is None,
            vendor.salesperson is None,
            vendor.salesperson_phone is None,
            vendor.address_id is None,
    {
        Vendor {
            vendor_id: 0,
            code: String::new(),
            name: String::new(),
            purchaser_acct_number: None,
            email: None,
            salesperson: None,
            salesperson_phone: None,
            address_id: None,
        }
    }
}

impl Customer {
    /// The blank customer: number zero, code and name empty, nothing else
    /// known.
    pub fn new() -> (customer: Customer)
        ensures
            customer.customer_id == 0,
            customer.code@ == Seq::<char>::empty(),
            customer.name@ == Seq::<char>::empty(),
            customer.address_id is None,
            customer.phone is None,
            customer.email is None,
    {
        Customer {
            customer_id: 0,
            code: String::new(),
            name: String::new(),
            address_id: None,
            phone: None,
            email: None,
        }
    }
}

impl Item {
    /// The text that a stored code has to be like in order to hold `upc`:
    /// the code itself with anything before and after it.
    pub open spec fn upc_pattern_text(upc: Seq<char>) -> Seq<char> {
        "%"@ + upc + "%"@
    }

    /// The query that selects, from the table `table_name`, the items one
    /// of whose codes is like a pattern; the pattern is its one parameter.
    pub open spec fn select_by_upc_text(table_name: Seq<char>) -> Seq<char> {
        "select * from "@ + table_name + ", json_each("@ + table_name
            + ".upcs) where json_each.value LIKE ?"@
    }

    /// The blank item: number zero, texts empty, amounts zero, nothing else
    /// known.
    pub fn new() -> (item: Item)
        ensures
            item.item_id == 0,
            item.sku@ == Seq::<char>::empty(),
            item.secondary_skus is None,
            item.upcs is None,
            item.description@ == Seq::<char>::empty(),
            item.cost == 0,
            item.retail == 0,
            item.primary_vendor_id is None,
            item.stock_qty == 0,
            item.mtd_buy_qty == 0,
            item.mtd_sell_qty == 0,
            item.year_sell_qty == 0,
            item.year_buy_qty == 0,
    {
        Item {
            item_id: 0,
            sku: String::new(),
            secondary_skus: None,
            upcs: None,
            description: String::new(),
            cost: 0,
            retail: 0,
            primary_vendor_id: None,
            stock_qty: 0,
            mtd_buy_qty: 0,
            mtd_sell_qty: 0,
            year_sell_qty: 0,
            year_buy_qty: 0,
        }
    }

    /// The pattern with which items are looked up by the code `upc`.
    pub fn upc_pattern(upc: &str) -> (pattern: String)
        ensures
            pattern@ == Self::upc_pattern_text(upc@),
    {
        let mut pattern = String::from_str("%");
        pattern.append(upc);
        pattern.append("%");
        pattern
    }

    /// The text of the query that looks items up by a code.
    pub fn select_by_upc_query(table_name: &str) -> (query: String)
        ensures
            query@ == Self::select_by_upc_text(table_name@),
    {
        let mut query = String::from_str("select * from ");
        query.append(table_name);
        query.append(", json_each(");
        query.append(table_name);
        query.append(".upcs) where json_each.value LIKE ?");
        query
    }
}

} // verus!
