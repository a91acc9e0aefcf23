use fixary::error::LedgerError;
use fixary::kinds::{DocumentKind, DocumentStatus, PartyKind, TransactionType};
use fixary::ledger::Ledger;
use fixary::money::PaymentStatus;
use fixary::records::{Document, InventoryItem, LineItem, Party, Payment};
use fixary::sale::{
    add_sale_item, add_sale_payment, complete_sale, create_sale, get_sale_by_id, get_sales,
    remove_sale_item, update_sale, update_sale_item,
};
use fixary::transaction::{
    add_transaction_item, add_transaction_payment, complete_transaction, create_transaction,
    get_transaction_by_id, get_transactions, remove_transaction_item, submit_transaction,
};

fn text(s: &str) -> String {
    s.to_string()
}

fn party(id: &str, kind: PartyKind, balance: Option<i64>) -> Party {
    Party { id: text(id), kind, name: format!("Party {}", id), credit_balance: balance }
}

fn stocked(id: &str, stock: Option<i64>) -> InventoryItem {
    InventoryItem { id: text(id), item_name: text(id), quantity_in_stock: stock, low_stock_threshold: Some(1) }
}

fn header(
    id: &str,
    number: &str,
    kind: DocumentKind,
    flow: TransactionType,
    party_id: &str,
    party_kind: PartyKind,
    status: DocumentStatus,
) -> Document {
    Document {
        id: text(id),
        number: text(number),
        kind,
        transaction_type: flow,
        party_id: text(party_id),
        party_kind,
        status,
        payment_status: PaymentStatus::Unpaid,
        total_amount: 123,
        paid_amount: 456,
        notes: Some(text("note")),
        created_at: text("2025-03-01T10:00:00+00:00"),
        updated_at: text("2025-03-01T10:00:00+00:00"),
        created_by: None,
    }
}

fn sale_header(id: &str, number: &str, client: &str, status: DocumentStatus) -> Document {
    header(id, number, DocumentKind::CustomerSale, TransactionType::Sale, client, PartyKind::Client, status)
}

fn line(id: &str, doc: &str, item: Option<&str>, quantity: i32, price: i64) -> LineItem {
    LineItem::new(text(id), text(doc), item.map(text), format!("Line {}", id), quantity, price, None).unwrap()
}

fn payment(id: &str, doc: &str, amount: i64) -> Payment {
    Payment {
        id: text(id),
        document_id: text(doc),
        amount,
        method: text("card"),
        date: text("2025-03-02T10:00:00+00:00"),
        received_by: None,
        notes: None,
        session_id: None,
    }
}

fn shop() -> Ledger {
    let mut ledger = Ledger::new();
    ledger.insert_party(party("C", PartyKind::Client, Some(1_000_000))).unwrap();
    ledger.insert_party(party("S", PartyKind::Supplier, None)).unwrap();
    ledger.insert_item(stocked("I", Some(20))).unwrap();
    ledger.insert_item(stocked("J", None)).unwrap();
    ledger
}

#[test]
fn created_documents_start_with_nothing_owed() {
    let mut ledger = shop();
    let stored = create_sale(&mut ledger, sale_header("S1", "SALE-2025-001", "C", DocumentStatus::Draft)).unwrap();
    assert_eq!(stored.total_amount, 0);
    assert_eq!(stored.paid_amount, 0);
    assert_eq!(stored.payment_status, PaymentStatus::Paid);
    assert_eq!(stored.number, "SALE-2025-001");
    assert_eq!(stored.notes.as_deref(), Some("note"));
    assert_eq!(ledger.sale_history.len(), 1);
    assert_eq!(ledger.sale_history[0].sale_id, "S1");
    assert_eq!(ledger.sale_history[0].event_type, "created");
    assert_eq!(ledger.sale_history[0].details, "SALE-2025-001 created");
    assert!(ledger.order_history.is_empty());
    assert!(ledger.is_consistent());
}

#[test]
fn a_sale_takes_stock_and_raises_what_the_client_owes() {
    let mut ledger = shop();
    create_sale(&mut ledger, sale_header("S1", "SALE-2025-001", "C", DocumentStatus::Draft)).unwrap();
    add_sale_item(&mut ledger, line("L1", "S1", Some("I"), 3, 4_500_000)).unwrap();
    add_sale_item(&mut ledger, line("L2", "S1", Some("I"), 2, 1_000_000)).unwrap();
    add_sale_item(&mut ledger, line("L3", "S1", Some("J"), 1, 250_000)).unwrap();
    add_sale_payment(&mut ledger, payment("PAY1", "S1", 5_000_000)).unwrap();
    assert_eq!(ledger.parties[0].credit_balance, Some(-4_000_000));
    assert_eq!(ledger.documents[0].doc.payment_status, PaymentStatus::Partial);
    complete_sale(&mut ledger, &text("S1")).unwrap();
    assert_eq!(ledger.documents[0].doc.total_amount, 15_750_000);
    assert_eq!(ledger.inventory[0].quantity_in_stock, Some(15));
    assert_eq!(ledger.inventory[1].quantity_in_stock, Some(-1));
    assert_eq!(ledger.parties[0].credit_balance, Some(11_750_000));
    assert_eq!(ledger.parties[1].credit_balance, None);
    let changes: Vec<(String, i64, String)> = ledger
        .inventory_history
        .iter()
        .map(|h| (h.item_id.clone(), h.quantity_change, h.event_type.clone()))
        .collect();
    assert_eq!(
        changes,
        vec![
            (text("I"), -3, text("Sold")),
            (text("I"), -2, text("Sold")),
            (text("J"), -1, text("Sold")),
        ]
    );
    assert_eq!(ledger.client_history.len(), 2);
    assert_eq!(ledger.client_history[0].event_type, "Payment Received");
    assert_eq!(ledger.client_history[0].amount, -5_000_000);
    assert_eq!(ledger.client_history[1].event_type, "Sale Completed");
    assert_eq!(ledger.client_history[1].amount, 15_750_000);
    assert!(ledger.supplier_history.is_empty());
    assert!(ledger.is_consistent());

    let details = get_sale_by_id(&ledger, &text("S1")).unwrap();
    assert_eq!(details.items.len(), 3);
    assert_eq!(details.payments.len(), 1);
    assert_eq!(details.party_name, "Party C");
    assert_eq!(get_sales(&ledger, Some(DocumentStatus::Completed)).len(), 1);
    assert!(get_sales(&ledger, Some(DocumentStatus::Draft)).is_empty());
}

#[test]
fn a_completed_sale_follows_its_items() {
    let mut ledger = shop();
    create_sale(&mut ledger, sale_header("S1", "SALE-2025-001", "C", DocumentStatus::Draft)).unwrap();
    add_sale_item(&mut ledger, line("L1", "S1", Some("I"), 3, 1_000_000)).unwrap();
    complete_sale(&mut ledger, &text("S1")).unwrap();
    assert_eq!(ledger.inventory[0].quantity_in_stock, Some(17));
    assert_eq!(ledger.parties[0].credit_balance, Some(4_000_000));
    update_sale_item(&mut ledger, line("L1", "S1", Some("I"), 5, 1_000_000)).unwrap();
    assert_eq!(ledger.inventory[0].quantity_in_stock, Some(15));
    assert_eq!(ledger.parties[0].credit_balance, Some(6_000_000));
    assert_eq!(ledger.documents[0].doc.total_amount, 5_000_000);
    remove_sale_item(&mut ledger, &text("L1"), &text("S1")).unwrap();
    assert_eq!(ledger.inventory[0].quantity_in_stock, Some(20));
    assert_eq!(ledger.parties[0].credit_balance, Some(1_000_000));
    assert_eq!(ledger.documents[0].doc.total_amount, 0);
    let mut back = sale_header("S1", "SALE-2025-001", "C", DocumentStatus::Draft);
    back.created_by = Some(text("carol"));
    update_sale(&mut ledger, back).unwrap();
    assert_eq!(ledger.documents[0].doc.status, DocumentStatus::Draft);
    assert_eq!(ledger.parties[0].credit_balance, Some(1_000_000));
    assert_eq!(ledger.sale_history.last().unwrap().event_type, "reverted");
    assert_eq!(ledger.sale_history.last().unwrap().changed_by.as_deref(), Some("carol"));
    assert!(ledger.is_consistent());
}

#[test]
fn small_balance_changes_leave_no_record() {
    let mut ledger = shop();
    create_sale(&mut ledger, sale_header("S1", "SALE-2025-001", "C", DocumentStatus::Draft)).unwrap();
    add_sale_item(&mut ledger, line("L1", "S1", None, 1, 999)).unwrap();
    complete_sale(&mut ledger, &text("S1")).unwrap();
    assert_eq!(ledger.parties[0].credit_balance, Some(1_000_999));
    assert!(ledger.client_history.is_empty());
    add_sale_item(&mut ledger, line("L2", "S1", None, 1, 1_000)).unwrap();
    assert_eq!(ledger.parties[0].credit_balance, Some(1_001_999));
    assert_eq!(ledger.client_history.len(), 1);
    assert_eq!(ledger.client_history[0].amount, 1_000);
    add_sale_payment(&mut ledger, payment("PAY1", "S1", 500)).unwrap();
    assert_eq!(ledger.parties[0].credit_balance, Some(1_001_499));
    assert_eq!(ledger.client_history.len(), 1);
}

#[test]
fn manual_adjustments_follow_the_threshold() {
    let mut ledger = shop();
    ledger.adjust_client_balance(&text("C"), 999, None).unwrap();
    assert_eq!(ledger.parties[0].credit_balance, Some(1_000_999));
    assert!(ledger.client_history.is_empty());
    ledger.adjust_client_balance(&text("C"), -1_000, None).unwrap();
    assert_eq!(ledger.parties[0].credit_balance, Some(999_999));
    assert_eq!(ledger.client_history.len(), 1);
    assert_eq!(ledger.client_history[0].event_type, "Balance Adjusted");
    assert_eq!(ledger.client_history[0].notes.as_deref(), Some("Manual entry"));
    assert_eq!(ledger.client_history[0].amount, -1_000);
    ledger.adjust_supplier_credit(&text("S"), 7_000_000, Some(text("opening balance"))).unwrap();
    assert_eq!(ledger.parties[1].credit_balance, Some(7_000_000));
    assert_eq!(ledger.supplier_history[0].notes.as_deref(), Some("opening balance"));
    assert_eq!(ledger.adjust_supplier_credit(&text("C"), 1, None), Err(LedgerError::PartyNotFound));
    assert_eq!(ledger.adjust_client_balance(&text("C"), i64::MAX, None), Err(LedgerError::AmountOverflow));
    assert_eq!(ledger.parties[0].credit_balance, Some(999_999));
}

#[test]
fn stock_adjustments_are_always_recorded() {
    let mut ledger = shop();
    ledger.adjust_stock(&text("J"), 4, "Purchased", &text("Delivery"), &text("D1")).unwrap();
    assert_eq!(ledger.inventory[1].quantity_in_stock, Some(4));
    ledger.adjust_stock(&text("I"), 0, "Adjustment", &text("Count"), &text("D2")).unwrap();
    assert_eq!(ledger.inventory[0].quantity_in_stock, Some(20));
    assert_eq!(ledger.inventory_history.len(), 2);
    assert_eq!(ledger.inventory_history[0].quantity_change, 4);
    assert_eq!(ledger.inventory_history[0].notes.as_deref(), Some("Delivery"));
    assert_eq!(ledger.inventory_history[1].related_id.as_deref(), Some("D2"));
    assert_eq!(
        ledger.adjust_stock(&text("nope"), 1, "Adjustment", &text("x"), &text("y")),
        Err(LedgerError::CatalogItemNotFound)
    );
    assert_eq!(
        ledger.adjust_stock(&text("I"), i64::MAX, "Adjustment", &text("x"), &text("y")),
        Err(LedgerError::AmountOverflow)
    );
    assert_eq!(ledger.inventory_history.len(), 2);
}

#[test]
fn registration_refuses_duplicates() {
    let mut ledger = shop();
    assert_eq!(ledger.insert_party(party("C", PartyKind::Client, None)), Err(LedgerError::DuplicateId));
    assert_eq!(ledger.insert_party(party("C", PartyKind::Supplier, None)), Ok(()));
    assert_eq!(ledger.insert_item(stocked("I", None)), Err(LedgerError::DuplicateId));
    assert_eq!(ledger.parties.len(), 3);
    assert_eq!(ledger.inventory.len(), 2);
}

#[test]
fn transactions_go_either_way() {
    let mut ledger = shop();
    let purchase = header(
        "T1",
        "",
        DocumentKind::Transaction,
        TransactionType::Purchase,
        "S",
        PartyKind::Supplier,
        DocumentStatus::Draft,
    );
    let stored = ledger.create_in_year(purchase, &text("2025")).unwrap();
    assert_eq!(stored.number, "PUR-2025-001");
    let sale = header(
        "T2",
        "",
        DocumentKind::Transaction,
        TransactionType::Sale,
        "C",
        PartyKind::Client,
        DocumentStatus::Draft,
    );
    let stored = ledger.create_in_year(sale, &text("2025")).unwrap();
    assert_eq!(stored.number, "SALE-2025-001");
    add_transaction_item(&mut ledger, line("L1", "T1", Some("I"), 5, 2_000_000)).unwrap();
    add_transaction_item(&mut ledger, line("L2", "T2", Some("I"), 2, 3_000_000)).unwrap();
    complete_transaction(&mut ledger, &text("T1")).unwrap();
    complete_transaction(&mut ledger, &text("T2")).unwrap();
    assert_eq!(ledger.inventory[0].quantity_in_stock, Some(23));
    assert_eq!(ledger.parties[0].credit_balance, Some(7_000_000));
    assert_eq!(ledger.parties[1].credit_balance, Some(10_000_000));
    add_transaction_payment(&mut ledger, payment("PAY1", "T1", 10_000_000)).unwrap();
    assert_eq!(ledger.parties[1].credit_balance, Some(0));
    assert_eq!(ledger.supplier_history.last().unwrap().event_type, "Payment Made");
    remove_transaction_item(&mut ledger, &text("L2"), &text("T2")).unwrap();
    assert_eq!(ledger.inventory[0].quantity_in_stock, Some(25));
    assert_eq!(ledger.parties[0].credit_balance, Some(1_000_000));
    assert_eq!(ledger.transaction_history.len(), 8);
    assert!(ledger.order_history.is_empty());
    assert!(ledger.sale_history.is_empty());
    assert_eq!(get_transactions(&ledger, None, None).len(), 2);
    assert_eq!(get_transactions(&ledger, Some(TransactionType::Sale), None)[0].id, "T2");
    assert_eq!(get_transactions(&ledger, Some(TransactionType::Purchase), Some(DocumentStatus::Completed))[0].id, "T1");
    assert!(get_transactions(&ledger, Some(TransactionType::Purchase), Some(DocumentStatus::Draft)).is_empty());
    assert_eq!(get_transaction_by_id(&ledger, &text("T2")).unwrap().party_name, "Party C");
    assert_eq!(
        complete_sale(&mut ledger, &text("T2")),
        Err(LedgerError::DocumentNotFound)
    );
    assert!(ledger.is_consistent());
}

#[test]
fn a_cancelled_transaction_has_no_effects() {
    let mut ledger = shop();
    let cancelled = header(
        "T1",
        "PUR-2025-001",
        DocumentKind::Transaction,
        TransactionType::Purchase,
        "S",
        PartyKind::Supplier,
        DocumentStatus::Cancelled,
    );
    let stored = create_transaction(&mut ledger, cancelled).unwrap();
    assert_eq!(stored.status, DocumentStatus::Cancelled);
    add_transaction_item(&mut ledger, line("L1", "T1", Some("I"), 5, 2_000_000)).unwrap();
    assert_eq!(ledger.inventory[0].quantity_in_stock, Some(20));
    assert_eq!(ledger.parties[1].credit_balance, None);
    assert_eq!(ledger.documents[0].doc.total_amount, 10_000_000);
}

#[test]
fn submission_is_all_in_one() {
    let mut ledger = shop();
    let doc = header(
        "T1",
        "SALE-2025-007",
        DocumentKind::Transaction,
        TransactionType::Sale,
        "C",
        PartyKind::Client,
        DocumentStatus::Completed,
    );
    let items = vec![line("L1", "T1", Some("I"), 4, 2_500_000), line("L2", "T1", None, 1, 500_000)];
    let payments = vec![payment("PAY1", "T1", 3_000_000), payment("PAY2", "T1", 2_000_000)];
    submit_transaction(&mut ledger, doc, items, payments).unwrap();
    let entry = &ledger.documents[0];
    assert_eq!(entry.doc.status, DocumentStatus::Completed);
    assert_eq!(entry.doc.total_amount, 10_500_000);
    assert_eq!(entry.doc.paid_amount, 5_000_000);
    assert_eq!(entry.doc.payment_status, PaymentStatus::Partial);
    assert_eq!(entry.items.len(), 2);
    assert_eq!(entry.payments.len(), 2);
    assert_eq!(ledger.inventory[0].quantity_in_stock, Some(16));
    assert_eq!(ledger.parties[0].credit_balance, Some(1_000_000 + 10_500_000 - 5_000_000));
    let tags: Vec<&str> = ledger.transaction_history.iter().map(|h| h.event_type.as_str()).collect();
    assert_eq!(tags, vec!["created", "item_added", "item_added", "payment_added", "payment_added", "completed"]);
    let amounts: Vec<i64> = ledger.client_history.iter().map(|h| h.amount).collect();
    assert_eq!(amounts, vec![-3_000_000, -2_000_000, 10_500_000]);
    assert!(ledger.is_consistent());
}

#[test]
fn a_refused_submission_leaves_nothing_behind() {
    let mut ledger = shop();
    let doc = |status| {
        header(
            "T1",
            "SALE-2025-007",
            DocumentKind::Transaction,
            TransactionType::Sale,
            "C",
            PartyKind::Client,
            status,
        )
    };
    let bad_items = vec![line("L1", "T1", Some("I"), 4, 2_500_000), line("L2", "T1", Some("ghost"), 1, 1)];
    assert_eq!(
        submit_transaction(&mut ledger, doc(DocumentStatus::Completed), bad_items, vec![]),
        Err(LedgerError::CatalogItemNotFound)
    );
    let twice = vec![payment("PAY1", "T1", 1), payment("PAY1", "T1", 2)];
    assert_eq!(
        submit_transaction(&mut ledger, doc(DocumentStatus::Draft), vec![], twice),
        Err(LedgerError::DuplicateId)
    );
    let elsewhere = vec![line("L1", "T9", None, 1, 1)];
    assert_eq!(
        submit_transaction(&mut ledger, doc(DocumentStatus::Draft), elsewhere, vec![]),
        Err(LedgerError::InvalidItem)
    );
    assert_eq!(
        submit_transaction(&mut ledger, doc(DocumentStatus::Draft), vec![], vec![payment("PAY1", "T9", 1)]),
        Err(LedgerError::InvalidPayment)
    );
    let too_much = vec![line("L1", "T1", Some("I"), 1, 1), line("L2", "T1", Some("I"), i32::MAX, 0)];
    ledger.inventory[0].quantity_in_stock = Some(i64::MIN + 5);
    assert_eq!(
        submit_transaction(&mut ledger, doc(DocumentStatus::Completed), too_much, vec![]),
        Err(LedgerError::AmountOverflow)
    );
    let mut order = doc(DocumentStatus::Draft);
    order.kind = DocumentKind::PurchaseOrder;
    assert_eq!(submit_transaction(&mut ledger, order, vec![], vec![]), Err(LedgerError::InvalidDocument));
    assert!(ledger.documents.is_empty());
    assert!(ledger.transaction_history.is_empty());
    assert!(ledger.client_history.is_empty());
    assert!(ledger.inventory_history.is_empty());
    assert_eq!(ledger.parties[0].credit_balance, Some(1_000_000));
    assert_eq!(ledger.inventory[0].quantity_in_stock, Some(i64::MIN + 5));
    assert_eq!(ledger.parties.len(), 2);
    assert_eq!(ledger.inventory.len(), 2);
}

#[test]
fn a_draft_submission_is_not_completed() {
    let mut ledger = shop();
    let doc = header(
        "T1",
        "",
        DocumentKind::Transaction,
        TransactionType::Purchase,
        "S",
        PartyKind::Supplier,
        DocumentStatus::Draft,
    );
    ledger
        .submit_in_year(doc, vec![line("L1", "T1", Some("J"), 2, 1_000_000)], vec![], &text("2031"))
        .unwrap();
    assert_eq!(ledger.documents[0].doc.number, "PUR-2031-001");
    assert_eq!(ledger.documents[0].doc.status, DocumentStatus::Draft);
    assert_eq!(ledger.documents[0].doc.total_amount, 2_000_000);
    assert_eq!(ledger.inventory[1].quantity_in_stock, None);
    assert_eq!(ledger.parties[1].credit_balance, None);
}

#[test]
fn figures_out_of_range_are_refused() {
    let mut ledger = shop();
    create_sale(&mut ledger, sale_header("S1", "SALE-2025-001", "C", DocumentStatus::Draft)).unwrap();
    add_sale_item(&mut ledger, line("L1", "S1", Some("I"), 3, 1_000_000)).unwrap();
    ledger.inventory[0].quantity_in_stock = Some(i64::MIN + 2);
    assert_eq!(complete_sale(&mut ledger, &text("S1")), Err(LedgerError::AmountOverflow));
    assert_eq!(
        update_sale(&mut ledger, sale_header("S1", "SALE-2025-001", "C", DocumentStatus::Completed)),
        Err(LedgerError::AmountOverflow)
    );
    ledger.inventory[0].quantity_in_stock = Some(i64::MIN + 3);
    ledger.parties[0].credit_balance = Some(i64::MAX - 2_999_999);
    assert_eq!(complete_sale(&mut ledger, &text("S1")), Err(LedgerError::AmountOverflow));
    assert_eq!(ledger.documents[0].doc.status, DocumentStatus::Draft);
    assert!(ledger.inventory_history.is_empty());
    ledger.parties[0].credit_balance = Some(i64::MAX - 3_000_000);
    assert_eq!(complete_sale(&mut ledger, &text("S1")), Ok(()));
    assert_eq!(ledger.inventory[0].quantity_in_stock, Some(i64::MIN));
    assert_eq!(ledger.parties[0].credit_balance, Some(i64::MAX));
    assert_eq!(
        add_sale_item(&mut ledger, line("L2", "S1", Some("I"), 1, 0)),
        Err(LedgerError::AmountOverflow)
    );
    assert_eq!(
        add_sale_item(&mut ledger, line("L2", "S1", None, 1, 1)),
        Err(LedgerError::AmountOverflow)
    );
    assert_eq!(
        update_sale_item(&mut ledger, line("L1", "S1", Some("I"), 4, 0)),
        Err(LedgerError::AmountOverflow)
    );
    ledger.inventory[0].quantity_in_stock = Some(i64::MAX - 2);
    assert_eq!(
        update_sale(&mut ledger, sale_header("S1", "SALE-2025-001", "C", DocumentStatus::Draft)),
        Err(LedgerError::AmountOverflow)
    );
    assert_eq!(
        remove_sale_item(&mut ledger, &text("L1"), &text("S1")),
        Err(LedgerError::AmountOverflow)
    );
    assert_eq!(ledger.documents[0].doc.status, DocumentStatus::Completed);
    assert_eq!(ledger.documents[0].items.len(), 1);
    assert!(ledger.is_consistent());
}

#[test]
fn cancelling_a_completed_transaction_takes_it_back() {
    let mut ledger = shop();
    let doc = |status| {
        header(
            "T1",
            "PUR-2025-001",
            DocumentKind::Transaction,
            TransactionType::Purchase,
            "S",
            PartyKind::Supplier,
            status,
        )
    };
    create_transaction(&mut ledger, doc(DocumentStatus::Draft)).unwrap();
    add_transaction_item(&mut ledger, line("L1", "T1", Some("J"), 6, 500_000)).unwrap();
    complete_transaction(&mut ledger, &text("T1")).unwrap();
    assert_eq!(ledger.inventory[1].quantity_in_stock, Some(6));
    assert_eq!(ledger.parties[1].credit_balance, Some(3_000_000));
    fixary::transaction::update_transaction(&mut ledger, doc(DocumentStatus::Cancelled)).unwrap();
    assert_eq!(ledger.documents[0].doc.status, DocumentStatus::Cancelled);
    assert_eq!(ledger.inventory[1].quantity_in_stock, Some(0));
    assert_eq!(ledger.parties[1].credit_balance, Some(0));
    assert_eq!(ledger.transaction_history.last().unwrap().event_type, "reverted");
    complete_transaction(&mut ledger, &text("T1")).unwrap();
    assert_eq!(ledger.documents[0].doc.status, DocumentStatus::Completed);
    assert_eq!(ledger.inventory[1].quantity_in_stock, Some(6));
    assert_eq!(ledger.parties[1].credit_balance, Some(3_000_000));
}
