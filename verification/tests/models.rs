use export_data::{AbcExportError, Address, Customer, Item, Vendor};

#[test]
fn blank_address() {
    let address = Address::new();
    assert_eq!(address.address_id, 0);
    assert_eq!(address.country, "");
    assert_eq!(address.street, "");
    assert_eq!(address.city, "");
    assert_eq!(address.state, "");
    assert_eq!(address.zip, "");
}

#[test]
fn blank_vendor() {
    let vendor = Vendor::new();
    assert_eq!(vendor.vendor_id, 0);
    assert_eq!(vendor.code, "");
    assert_eq!(vendor.name, "");
    assert_eq!(vendor.purchaser_acct_number, None);
    assert_eq!(vendor.email, None);
    assert_eq!(vendor.salesperson, None);
    assert_eq!(vendor.salesperson_phone, None);
    assert_eq!(vendor.address_id, None);
}

#[test]
fn blank_customer() {
    let customer = Customer::new();
    assert_eq!(customer.customer_id, 0);
    assert_eq!(customer.code, "");
    assert_eq!(customer.name, "");
    assert_eq!(customer.address_id, None);
    assert_eq!(customer.phone, None);
    assert_eq!(customer.email, None);
}

#[test]
fn blank_item() {
    let item = Item::new();
    assert_eq!(item.item_id, 0);
    assert_eq!(item.sku, "");
    assert_eq!(item.secondary_skus, None);
    assert_eq!(item.upcs, None);
    assert_eq!(item.description, "");
    assert_eq!(item.cost, 0);
    assert_eq!(item.retail, 0);
    assert_eq!(item.primary_vendor_id, None);
    assert_eq!(item.stock_qty, 0);
    assert_eq!(item.mtd_buy_qty, 0);
    assert_eq!(item.mtd_sell_qty, 0);
    assert_eq!(item.year_sell_qty, 0);
    assert_eq!(item.year_buy_qty, 0);
}

#[test]
fn pattern_for_a_code() {
    assert_eq!(Item::upc_pattern("0123456789"), "%0123456789%");
    assert_eq!(Item::upc_pattern(""), "%%");
}

#[test]
fn query_for_a_code() {
    assert_eq!(
        Item::select_by_upc_query("item"),
        "select * from item, json_each(item.upcs) where json_each.value LIKE ?"
    );
}

#[test]
fn json_error_becomes_an_export_error() {
    let broken = serde_json::from_str::<serde_json::Value>("{").unwrap_err();
    let shown = format!("{:?}", broken);
    let error = AbcExportError::from(broken);
    assert!(matches!(error, AbcExportError::SerdeJson(_)));
    assert_eq!(error.to_string(), format!("SerdeJson({})", shown));
}

#[test]
fn custom_error_shows_its_words() {
    let error = AbcExportError::Custom(String::from("no such table"));
    assert_eq!(error.to_string(), "Custom(\"no such table\")");
}
