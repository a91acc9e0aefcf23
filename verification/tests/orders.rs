use fixary::error::LedgerError;
use fixary::kinds::{DocumentKind, DocumentStatus, PartyKind, TransactionType};
use fixary::ledger::Ledger;
use fixary::money::PaymentStatus;
use fixary::order::{
    add_order_item, add_order_payment, complete_order, create_order, get_order_by_id,
    get_order_payments, get_orders, remove_order_item, update_order, update_order_item,
};
use fixary::records::{Document, InventoryItem, LineItem, Party, Payment};

fn text(s: &str) -> String {
    s.to_string()
}

fn supplier(id: &str) -> Party {
    Party { id: text(id), kind: PartyKind::Supplier, name: format!("Supplier {}", id), credit_balance: None }
}

fn catalog_item(id: &str, stock: Option<i64>) -> InventoryItem {
    InventoryItem {
        id: text(id),
        item_name: format!("Part {}", id),
        quantity_in_stock: stock,
        low_stock_threshold: None,
    }
}

fn order_header(id: &str, number: &str, supplier_id: &str, status: DocumentStatus) -> Document {
    Document {
        id: text(id),
        number: text(number),
        kind: DocumentKind::PurchaseOrder,
        transaction_type: TransactionType::Purchase,
        party_id: text(supplier_id),
        party_kind: PartyKind::Supplier,
        status,
        payment_status: PaymentStatus::Unpaid,
        total_amount: 0,
        paid_amount: 0,
        notes: None,
        created_at: text("2025-01-01T00:00:00+00:00"),
        updated_at: text("2025-01-01T00:00:00+00:00"),
        created_by: Some(text("alice")),
    }
}

fn line(id: &str, order_id: &str, item_id: Option<&str>, quantity: i32, unit_price: i64) -> LineItem {
    LineItem::new(
        text(id),
        text(order_id),
        item_id.map(text),
        format!("Line {}", id),
        quantity,
        unit_price,
        None,
    )
    .expect("a well-formed line item")
}

fn payment(id: &str, order_id: &str, amount: i64) -> Payment {
    Payment {
        id: text(id),
        document_id: text(order_id),
        amount,
        method: text("cash"),
        date: text("2025-01-02T00:00:00+00:00"),
        received_by: Some(text("bob")),
        notes: None,
        session_id: None,
    }
}

fn ledger_with_supplier_and_item() -> Ledger {
    let mut ledger = Ledger::new();
    ledger.insert_party(supplier("S")).unwrap();
    ledger.insert_item(catalog_item("I", Some(5))).unwrap();
    ledger
}

fn completed_order() -> Ledger {
    let mut ledger = ledger_with_supplier_and_item();
    create_order(&mut ledger, order_header("O1", "ORD-2025-001", "S", DocumentStatus::Draft)).unwrap();
    add_order_item(&mut ledger, line("L1", "O1", Some("I"), 10, 2_000_000)).unwrap();
    complete_order(&mut ledger, &text("O1")).unwrap();
    ledger
}

#[test]
fn an_order_takes_an_item_and_is_completed() {
    let mut ledger = ledger_with_supplier_and_item();
    let stored =
        create_order(&mut ledger, order_header("O1", "ORD-2025-001", "S", DocumentStatus::Draft)).unwrap();
    assert_eq!(stored.status, DocumentStatus::Draft);
    assert_eq!(stored.total_amount, 0);
    add_order_item(&mut ledger, line("L1", "O1", Some("I"), 10, 2_000_000)).unwrap();
    let details = get_order_by_id(&ledger, &text("O1")).unwrap();
    assert_eq!(details.document.total_amount, 20_000_000);
    assert_eq!(details.document.payment_status, PaymentStatus::Unpaid);
    assert_eq!(details.document.status, DocumentStatus::Draft);
    assert_eq!(details.party_name, "Supplier S");
    assert_eq!(ledger.parties[0].credit_balance, None);
    assert_eq!(ledger.inventory[0].quantity_in_stock, Some(5));
    assert!(ledger.inventory_history.is_empty());

    complete_order(&mut ledger, &text("O1")).unwrap();
    assert_eq!(ledger.parties[0].credit_balance, Some(20_000_000));
    assert_eq!(ledger.inventory[0].quantity_in_stock, Some(15));
    assert_eq!(ledger.documents[0].doc.status, DocumentStatus::Completed);
    assert_eq!(ledger.inventory_history.len(), 1);
    assert_eq!(ledger.inventory_history[0].item_id, "I");
    assert_eq!(ledger.inventory_history[0].event_type, "Purchased");
    assert_eq!(ledger.inventory_history[0].quantity_change, 10);
    assert_eq!(ledger.inventory_history[0].notes.as_deref(), Some("Completed document ORD-2025-001"));
    assert_eq!(ledger.inventory_history[0].related_id.as_deref(), Some("O1"));
    assert_eq!(ledger.inventory_history[0].id.len(), 36);
    assert_eq!(ledger.supplier_history.len(), 1);
    assert_eq!(ledger.supplier_history[0].supplier_id, "S");
    assert_eq!(ledger.supplier_history[0].event_type, "Purchase Order Completed");
    assert_eq!(ledger.supplier_history[0].amount, 20_000_000);
    assert_eq!(ledger.supplier_history[0].notes.as_deref(), Some("Document ORD-2025-001 completed"));
    let tags: Vec<&str> = ledger.order_history.iter().map(|h| h.event_type.as_str()).collect();
    assert_eq!(tags, vec!["created", "item_added", "completed"]);
    assert_eq!(ledger.order_history[0].details, "ORD-2025-001 created");
    assert_eq!(ledger.order_history[0].changed_by.as_deref(), Some("alice"));
    assert_eq!(ledger.order_history[1].details, "Added item: Line L1");
    assert_eq!(ledger.order_history[2].details, "ORD-2025-001 completed and inventory updated");
    assert!(ledger.client_history.is_empty());
    assert!(ledger.sale_history.is_empty());
}

#[test]
fn a_payment_settles_a_completed_order() {
    let mut ledger = completed_order();
    add_order_payment(&mut ledger, payment("PAY1", "O1", 20_000_000)).unwrap();
    let doc = &ledger.documents[0].doc;
    assert_eq!(doc.paid_amount, 20_000_000);
    assert_eq!(doc.payment_status, PaymentStatus::Paid);
    assert_eq!(ledger.parties[0].credit_balance, Some(0));
    assert_eq!(ledger.supplier_history.len(), 2);
    assert_eq!(ledger.supplier_history[1].event_type, "Payment Made");
    assert_eq!(ledger.supplier_history[1].amount, -20_000_000);
    assert_eq!(ledger.supplier_history[1].notes.as_deref(), Some("Payment for ORD-2025-001"));
    assert_eq!(ledger.supplier_history[1].changed_by.as_deref(), Some("bob"));
    let last = ledger.order_history.last().unwrap();
    assert_eq!(last.event_type, "payment_added");
    assert_eq!(last.details, "Payment of $20.00 added");
    assert_eq!(last.changed_by.as_deref(), Some("bob"));
    let payments = get_order_payments(&ledger, &text("O1"));
    assert_eq!(payments.len(), 1);
    assert_eq!(payments[0].id, "PAY1");
    assert_eq!(payments[0].amount, 20_000_000);
    assert!(get_order_payments(&ledger, &text("nope")).is_empty());
}

#[test]
fn removing_the_item_takes_the_completion_back() {
    let mut ledger = completed_order();
    remove_order_item(&mut ledger, &text("L1"), &text("O1")).unwrap();
    let doc = &ledger.documents[0].doc;
    assert_eq!(doc.total_amount, 0);
    assert_eq!(doc.paid_amount, 0);
    assert_eq!(doc.payment_status, PaymentStatus::Paid);
    assert_eq!(doc.status, DocumentStatus::Completed);
    assert!(ledger.documents[0].items.is_empty());
    assert_eq!(ledger.inventory[0].quantity_in_stock, Some(5));
    assert_eq!(ledger.parties[0].credit_balance, Some(0));
    assert_eq!(ledger.inventory_history.len(), 2);
    assert_eq!(ledger.inventory_history[1].event_type, "Adjustment");
    assert_eq!(ledger.inventory_history[1].quantity_change, -10);
    assert_eq!(
        ledger.inventory_history[1].notes.as_deref(),
        Some("Removed item from completed document ORD-2025-001")
    );
    assert_eq!(ledger.supplier_history.len(), 2);
    assert_eq!(ledger.supplier_history[1].event_type, "Balance Adjusted");
    assert_eq!(ledger.supplier_history[1].amount, -20_000_000);
    assert_eq!(
        ledger.supplier_history[1].notes.as_deref(),
        Some("Document ORD-2025-001 total recalculated (items changed)")
    );
    let last = ledger.order_history.last().unwrap();
    assert_eq!(last.event_type, "item_removed");
    assert_eq!(last.details, "Removed item: Line L1");
}

#[test]
fn three_orders_in_one_year_are_numbered_in_turn() {
    let mut ledger = ledger_with_supplier_and_item();
    let year = text("2025");
    let first = ledger.create_in_year(order_header("O1", "", "S", DocumentStatus::Draft), &year).unwrap();
    let second = ledger.create_in_year(order_header("O2", "", "S", DocumentStatus::Draft), &year).unwrap();
    let third = ledger.create_in_year(order_header("O3", "", "S", DocumentStatus::Draft), &year).unwrap();
    assert_eq!(first.number, "ORD-2025-001");
    assert_eq!(second.number, "ORD-2025-002");
    assert_eq!(third.number, "ORD-2025-003");
    assert_eq!(ledger.next_number(DocumentKind::PurchaseOrder, TransactionType::Purchase, &year), "ORD-2025-004");
    assert_eq!(ledger.next_number(DocumentKind::PurchaseOrder, TransactionType::Purchase, &text("2026")), "ORD-2026-001");
    assert_eq!(ledger.next_number(DocumentKind::CustomerSale, TransactionType::Sale, &year), "SALE-2025-001");
    assert_eq!(ledger.next_number(DocumentKind::Transaction, TransactionType::Purchase, &year), "PUR-2025-001");
}

#[test]
fn numbers_of_the_current_year_count_up() {
    let mut ledger = ledger_with_supplier_and_item();
    let first = create_order(&mut ledger, order_header("O1", "", "S", DocumentStatus::Draft)).unwrap();
    let second = create_order(&mut ledger, order_header("O2", "", "S", DocumentStatus::Draft)).unwrap();
    let third = create_order(&mut ledger, order_header("O3", "", "S", DocumentStatus::Draft)).unwrap();
    assert!(first.number.starts_with("ORD-"));
    assert!(first.number.ends_with("-001"));
    assert!(second.number.ends_with("-002"));
    assert!(third.number.ends_with("-003"));
    assert_eq!(first.number[..first.number.len() - 3], second.number[..second.number.len() - 3]);
    assert_eq!(first.number.len(), "ORD-2025-001".len());
}

#[test]
fn completing_twice_is_completing_once() {
    let mut ledger = completed_order();
    let stock = ledger.inventory[0].quantity_in_stock;
    let balance = ledger.parties[0].credit_balance;
    let records = (ledger.inventory_history.len(), ledger.supplier_history.len(), ledger.order_history.len());
    assert_eq!(complete_order(&mut ledger, &text("O1")), Ok(()));
    assert_eq!(ledger.inventory[0].quantity_in_stock, stock);
    assert_eq!(ledger.parties[0].credit_balance, balance);
    assert_eq!(
        (ledger.inventory_history.len(), ledger.supplier_history.len(), ledger.order_history.len()),
        records
    );
}

#[test]
fn reverting_restores_stock_and_balance() {
    let mut ledger = completed_order();
    let mut header = order_header("O1", "ORD-2025-001", "S", DocumentStatus::Draft);
    header.notes = Some(text("taken back"));
    header.updated_at = text("2025-02-01T00:00:00+00:00");
    update_order(&mut ledger, header).unwrap();
    assert_eq!(ledger.documents[0].doc.status, DocumentStatus::Draft);
    assert_eq!(ledger.documents[0].doc.notes.as_deref(), Some("taken back"));
    assert_eq!(ledger.documents[0].doc.updated_at, "2025-02-01T00:00:00+00:00");
    assert_eq!(ledger.documents[0].doc.total_amount, 20_000_000);
    assert_eq!(ledger.inventory[0].quantity_in_stock, Some(5));
    assert_eq!(ledger.parties[0].credit_balance, Some(0));
    assert_eq!(ledger.inventory_history.len(), 2);
    assert_eq!(ledger.inventory_history[1].event_type, "Adjustment");
    assert_eq!(ledger.inventory_history[1].quantity_change, -10);
    assert_eq!(ledger.inventory_history[1].notes.as_deref(), Some("Reverted document ORD-2025-001"));
    assert_eq!(ledger.supplier_history[1].event_type, "Purchase Order Reverted to Draft");
    assert_eq!(ledger.supplier_history[1].amount, -20_000_000);
    assert_eq!(ledger.supplier_history[1].notes.as_deref(), Some("Document ORD-2025-001 reverted to draft"));
    let last = ledger.order_history.last().unwrap();
    assert_eq!(last.event_type, "reverted");
    assert_eq!(last.details, "ORD-2025-001 reverted to draft");
}

#[test]
fn completed_order_moves_to_another_supplier() {
    let mut ledger = completed_order();
    ledger.insert_party(supplier("T")).unwrap();
    update_order(&mut ledger, order_header("O1", "ORD-2025-001", "T", DocumentStatus::Completed)).unwrap();
    assert_eq!(ledger.documents[0].doc.party_id, "T");
    assert_eq!(ledger.parties[0].credit_balance, Some(0));
    assert_eq!(ledger.parties[1].credit_balance, Some(20_000_000));
    assert_eq!(ledger.inventory[0].quantity_in_stock, Some(15));
    assert_eq!(ledger.supplier_history.len(), 3);
    assert_eq!(ledger.supplier_history[1].supplier_id, "S");
    assert_eq!(ledger.supplier_history[1].amount, -20_000_000);
    assert_eq!(ledger.supplier_history[1].event_type, "Balance Adjusted");
    assert_eq!(ledger.supplier_history[1].notes.as_deref(), Some("Document ORD-2025-001 reassigned"));
    assert_eq!(ledger.supplier_history[2].supplier_id, "T");
    assert_eq!(ledger.supplier_history[2].amount, 20_000_000);
    assert_eq!(ledger.order_history.last().unwrap().event_type, "updated");
    assert_eq!(ledger.order_history.last().unwrap().details, "ORD-2025-001 updated");
}

#[test]
fn header_update_can_complete_a_draft() {
    let mut ledger = ledger_with_supplier_and_item();
    create_order(&mut ledger, order_header("O1", "ORD-2025-001", "S", DocumentStatus::Draft)).unwrap();
    add_order_item(&mut ledger, line("L1", "O1", Some("I"), 4, 1_500_000)).unwrap();
    update_order(&mut ledger, order_header("O1", "ORD-2025-001", "S", DocumentStatus::Completed)).unwrap();
    assert_eq!(ledger.documents[0].doc.status, DocumentStatus::Completed);
    assert_eq!(ledger.inventory[0].quantity_in_stock, Some(9));
    assert_eq!(ledger.parties[0].credit_balance, Some(6_000_000));
    assert_eq!(ledger.order_history.last().unwrap().event_type, "completed");
}

#[test]
fn item_changes_on_a_completed_order_move_stock_and_balance() {
    let mut ledger = completed_order();
    ledger.insert_item(catalog_item("J", None)).unwrap();
    add_order_item(&mut ledger, line("L2", "O1", Some("J"), 3, 1_000_000)).unwrap();
    assert_eq!(ledger.documents[0].doc.total_amount, 23_000_000);
    assert_eq!(ledger.inventory[1].quantity_in_stock, Some(3));
    assert_eq!(ledger.parties[0].credit_balance, Some(23_000_000));
    assert_eq!(ledger.inventory_history.last().unwrap().event_type, "Purchased");
    assert_eq!(
        ledger.inventory_history.last().unwrap().notes.as_deref(),
        Some("Added item to completed document ORD-2025-001")
    );

    update_order_item(&mut ledger, line("L1", "O1", Some("J"), 2, 5_000_000)).unwrap();
    assert_eq!(ledger.documents[0].doc.total_amount, 13_000_000);
    assert_eq!(ledger.documents[0].items[0].quantity, 2);
    assert_eq!(ledger.inventory[0].quantity_in_stock, Some(5));
    assert_eq!(ledger.inventory[1].quantity_in_stock, Some(5));
    assert_eq!(ledger.parties[0].credit_balance, Some(13_000_000));
    let n = ledger.inventory_history.len();
    assert_eq!(ledger.inventory_history[n - 2].item_id, "I");
    assert_eq!(ledger.inventory_history[n - 2].quantity_change, -10);
    assert_eq!(ledger.inventory_history[n - 1].item_id, "J");
    assert_eq!(ledger.inventory_history[n - 1].quantity_change, 2);
    assert_eq!(ledger.order_history.last().unwrap().event_type, "updated");
    assert_eq!(ledger.order_history.last().unwrap().details, "Updated item: Line L1");
}

#[test]
fn ad_hoc_items_never_touch_stock() {
    let mut ledger = ledger_with_supplier_and_item();
    create_order(&mut ledger, order_header("O1", "ORD-2025-001", "S", DocumentStatus::Draft)).unwrap();
    add_order_item(&mut ledger, line("L1", "O1", None, 7, 1_000_000)).unwrap();
    complete_order(&mut ledger, &text("O1")).unwrap();
    assert_eq!(ledger.inventory[0].quantity_in_stock, Some(5));
    assert!(ledger.inventory_history.is_empty());
    assert_eq!(ledger.parties[0].credit_balance, Some(7_000_000));
}

#[test]
fn unknown_item_removal_recomputes_and_records() {
    let mut ledger = completed_order();
    assert_eq!(remove_order_item(&mut ledger, &text("nope"), &text("O1")), Ok(()));
    assert_eq!(ledger.documents[0].doc.total_amount, 20_000_000);
    assert_eq!(ledger.documents[0].items.len(), 1);
    assert_eq!(ledger.inventory[0].quantity_in_stock, Some(15));
    assert_eq!(ledger.parties[0].credit_balance, Some(20_000_000));
    assert_eq!(ledger.supplier_history.len(), 1);
    assert_eq!(ledger.order_history.last().unwrap().details, "Removed item: Unknown Item");
    let before = ledger.order_history.len();
    assert_eq!(update_order_item(&mut ledger, line("nope", "O1", Some("I"), 1, 1)), Ok(()));
    assert_eq!(ledger.order_history.len(), before);
    assert_eq!(ledger.documents[0].doc.total_amount, 20_000_000);
}

#[test]
fn refusals_leave_the_ledger_alone() {
    let mut ledger = completed_order();
    assert_eq!(
        create_order(&mut ledger, order_header("O1", "ORD-2025-009", "S", DocumentStatus::Draft)).unwrap_err(),
        LedgerError::DuplicateId
    );
    assert_eq!(
        create_order(&mut ledger, order_header("O2", "ORD-2025-001", "S", DocumentStatus::Draft)).unwrap_err(),
        LedgerError::DuplicateNumber
    );
    assert_eq!(
        create_order(&mut ledger, order_header("O2", "ORD-2025-002", "nobody", DocumentStatus::Draft)).unwrap_err(),
        LedgerError::PartyNotFound
    );
    let mut wrong = order_header("O2", "ORD-2025-002", "S", DocumentStatus::Draft);
    wrong.party_kind = PartyKind::Client;
    assert_eq!(create_order(&mut ledger, wrong).unwrap_err(), LedgerError::InvalidDocument);
    let mut sale = order_header("O2", "ORD-2025-002", "S", DocumentStatus::Draft);
    sale.kind = DocumentKind::CustomerSale;
    assert_eq!(create_order(&mut ledger, sale).unwrap_err(), LedgerError::InvalidDocument);
    assert_eq!(complete_order(&mut ledger, &text("nope")), Err(LedgerError::DocumentNotFound));
    assert_eq!(
        add_order_item(&mut ledger, line("L9", "nope", None, 1, 1)),
        Err(LedgerError::DocumentNotFound)
    );
    assert_eq!(
        add_order_item(&mut ledger, line("L1", "O1", None, 1, 1)),
        Err(LedgerError::DuplicateId)
    );
    assert_eq!(
        add_order_item(&mut ledger, line("L9", "O1", Some("ghost"), 1, 1)),
        Err(LedgerError::CatalogItemNotFound)
    );
    let mut bad = line("L9", "O1", None, 2, 3);
    bad.total_price = 7;
    assert_eq!(add_order_item(&mut ledger, bad), Err(LedgerError::InvalidItem));
    let mut negative = line("L9", "O1", None, 2, 3);
    negative.quantity = -2;
    negative.total_price = -6;
    assert_eq!(add_order_item(&mut ledger, negative), Err(LedgerError::InvalidItem));
    assert_eq!(
        add_order_item(&mut ledger, line("L9", "O1", None, 1, i64::MAX)),
        Err(LedgerError::AmountOverflow)
    );
    assert_eq!(add_order_payment(&mut ledger, payment("PAY1", "O1", 0)), Err(LedgerError::InvalidPayment));
    assert_eq!(add_order_payment(&mut ledger, payment("PAY1", "nope", 5)), Err(LedgerError::DocumentNotFound));
    add_order_payment(&mut ledger, payment("PAY1", "O1", 5)).unwrap();
    assert_eq!(add_order_payment(&mut ledger, payment("PAY1", "O1", 5)), Err(LedgerError::DuplicateId));
    assert_eq!(
        add_order_payment(&mut ledger, payment("PAY2", "O1", i64::MAX)),
        Err(LedgerError::AmountOverflow)
    );
    assert_eq!(
        update_order(&mut ledger, order_header("O1", "ORD-2025-001", "nobody", DocumentStatus::Draft)),
        Err(LedgerError::PartyNotFound)
    );
    assert_eq!(
        update_order(&mut ledger, order_header("nope", "ORD-2025-001", "S", DocumentStatus::Draft)),
        Err(LedgerError::DocumentNotFound)
    );
    assert_eq!(ledger.documents.len(), 1);
    assert_eq!(ledger.documents[0].items.len(), 1);
    assert_eq!(ledger.documents[0].payments.len(), 1);
    assert_eq!(ledger.documents[0].doc.total_amount, 20_000_000);
    assert_eq!(ledger.inventory[0].quantity_in_stock, Some(15));
    assert_eq!(ledger.parties[0].credit_balance, Some(20_000_000 - 5));
    assert!(get_order_by_id(&ledger, &text("nope")).is_none());
}

#[test]
fn orders_are_listed_by_status() {
    let mut ledger = completed_order();
    create_order(&mut ledger, order_header("O2", "ORD-2025-002", "S", DocumentStatus::Draft)).unwrap();
    let all = get_orders(&ledger, None);
    assert_eq!(all.len(), 2);
    assert_eq!(all[0].id, "O1");
    assert_eq!(all[1].id, "O2");
    let drafts = get_orders(&ledger, Some(DocumentStatus::Draft));
    assert_eq!(drafts.len(), 1);
    assert_eq!(drafts[0].id, "O2");
    let done = get_orders(&ledger, Some(DocumentStatus::Completed));
    assert_eq!(done.len(), 1);
    assert_eq!(done[0].id, "O1");
    assert!(get_orders(&ledger, Some(DocumentStatus::Cancelled)).is_empty());
}

#[test]
fn listings_put_the_latest_first() {
    let mut ledger = ledger_with_supplier_and_item();
    for (id, number, created) in [
        ("O1", "ORD-2025-001", "2025-01-05T00:00:00+00:00"),
        ("O2", "ORD-2025-002", "2025-03-01T00:00:00+00:00"),
        ("O3", "ORD-2025-003", "2025-02-01T00:00:00+00:00"),
        ("O4", "ORD-2025-004", "2025-03-01T00:00:00+00:00"),
    ] {
        let mut header = order_header(id, number, "S", DocumentStatus::Draft);
        header.created_at = text(created);
        create_order(&mut ledger, header).unwrap();
    }
    let ids: Vec<String> = get_orders(&ledger, None).into_iter().map(|d| d.id).collect();
    assert_eq!(ids, vec!["O2", "O4", "O3", "O1"]);
    for (id, date, amount) in [
        ("PAY1", "2025-04-02T00:00:00+00:00", 1),
        ("PAY2", "2025-04-09T00:00:00+00:00", 2),
        ("PAY3", "2025-04-01T00:00:00+00:00", 3),
    ] {
        let mut p = payment(id, "O1", amount);
        p.date = text(date);
        add_order_payment(&mut ledger, p).unwrap();
    }
    let amounts: Vec<i64> = get_order_payments(&ledger, &text("O1")).into_iter().map(|p| p.amount).collect();
    assert_eq!(amounts, vec![2, 1, 3]);
    let stored: Vec<i64> = get_order_by_id(&ledger, &text("O1")).unwrap().payments.iter().map(|p| p.amount).collect();
    assert_eq!(stored, vec![1, 2, 3]);
}

#[test]
fn stamps_come_from_the_clock() {
    let mut ledger = ledger_with_supplier_and_item();
    let before = chrono::Utc::now();
    let year = before.format("%Y").to_string();
    let stored = create_order(&mut ledger, order_header("O1", "", "S", DocumentStatus::Draft)).unwrap();
    assert_eq!(stored.number, format!("ORD-{}-001", year));
    add_order_item(&mut ledger, line("L1", "O1", Some("I"), 1, 1_000_000)).unwrap();
    let after = chrono::Utc::now();
    for date in ledger.order_history.iter().map(|h| &h.date).chain([&ledger.documents[0].doc.updated_at]) {
        let instant = chrono::DateTime::parse_from_rfc3339(date).expect("an RFC 3339 instant");
        assert!(instant >= before && instant <= after);
    }
    let first = uuid::Uuid::parse_str(&ledger.order_history[0].id).expect("a UUID");
    let second = uuid::Uuid::parse_str(&ledger.order_history[1].id).expect("a UUID");
    assert_eq!(first.get_version_num(), 4);
    assert_ne!(first, second);
}
