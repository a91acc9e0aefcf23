use fixary::config::{current_db_path, init_db_path};
use fixary::error::LedgerError;
use fixary::kinds::{DocumentKind, DocumentStatus, PartyKind, TransactionType};
use fixary::ledger::{DocumentEntry, Ledger};
use fixary::money::{format_amount, PaymentStatus, HISTORY_THRESHOLD, UNITS_PER_WHOLE};
use fixary::records::{paid_of, total_of, Document, InventoryItem, LineItem, Party, Payment};
use fixary::session::{close_session, SessionBook, SessionStatus};
use fixary::text::{has_prefix, reads, render_number, render_padded3, text_less, trailing_number};

fn text(s: &str) -> String {
    s.to_string()
}

#[test]
fn the_store_lives_beside_the_program() {
    let config = init_db_path();
    assert_eq!(config.db_path, "../fixary.db");
    assert_eq!(current_db_path(&config), "../fixary.db");
}

#[test]
fn amounts_are_written_with_two_places() {
    assert_eq!(UNITS_PER_WHOLE, 1_000_000);
    assert_eq!(HISTORY_THRESHOLD, 1_000);
    assert_eq!(format_amount(20_000_000), "20.00");
    assert_eq!(format_amount(0), "0.00");
    assert_eq!(format_amount(1_234_567), "1.23");
    assert_eq!(format_amount(1_235_000), "1.24");
    assert_eq!(format_amount(4_999), "0.00");
    assert_eq!(format_amount(5_000), "0.01");
    assert_eq!(format_amount(999_995_000), "1000.00");
    assert_eq!(format_amount(-2_500_000), "-2.50");
    assert_eq!(format_amount(i64::MAX), "9223372036854.78");
    assert_eq!(format_amount(i64::MIN), "-9223372036854.78");
}

#[test]
fn numbers_are_written_and_read() {
    assert_eq!(render_number(0), "0");
    assert_eq!(render_number(7), "7");
    assert_eq!(render_number(1234567890), "1234567890");
    assert_eq!(render_number(u64::MAX), "18446744073709551615");
    assert_eq!(render_padded3(1), "001");
    assert_eq!(render_padded3(42), "042");
    assert_eq!(render_padded3(999), "999");
    assert_eq!(render_padded3(1000), "1000");
    assert_eq!(trailing_number(&text("ORD-2025-007")), Some(7));
    assert_eq!(trailing_number(&text("ORD-2025-1000")), Some(1000));
    assert_eq!(trailing_number(&text("2147483647")), Some(2147483647));
    assert_eq!(trailing_number(&text("X-2147483648")), None);
    assert_eq!(trailing_number(&text("ORD-2025-")), None);
    assert_eq!(trailing_number(&text("ORD-2025-12a")), None);
    assert_eq!(trailing_number(&text("")), None);
    assert_eq!(trailing_number(&text("ORD-2025-+5")), None);
}

#[test]
fn texts_are_ordered_and_matched() {
    assert!(text_less(&text("ORD-2025-001"), &text("ORD-2025-002")));
    assert!(!text_less(&text("ORD-2025-002"), &text("ORD-2025-001")));
    assert!(!text_less(&text("same"), &text("same")));
    assert!(text_less(&text("ab"), &text("abc")));
    assert!(!text_less(&text("abc"), &text("ab")));
    assert!(text_less(&text(""), &text("a")));
    assert!(text_less(&text("ORD-2025-1000"), &text("ORD-2025-999")));
    assert!(has_prefix(&text("ORD-2025-001"), &text("ORD-2025-")));
    assert!(has_prefix(&text("abc"), &text("")));
    assert!(!has_prefix(&text("ORD-2024-001"), &text("ORD-2025-")));
    assert!(!has_prefix(&text("OR"), &text("ORD")));
    assert!(reads(&text("draft"), "draft"));
    assert!(!reads(&text("Draft"), "draft"));
}

#[test]
fn the_greatest_number_decides_the_next() {
    let mut ledger = Ledger::new();
    ledger
        .insert_party(Party { id: text("S"), kind: PartyKind::Supplier, name: text("S"), credit_balance: None })
        .unwrap();
    let year = text("2025");
    for (id, number) in [("A", "ORD-2025-041"), ("B", "ORD-2025-007"), ("C", "ORD-2024-900"), ("D", "ORD-2025-x")] {
        let doc = Document {
            id: text(id),
            number: text(number),
            kind: DocumentKind::PurchaseOrder,
            transaction_type: TransactionType::Purchase,
            party_id: text("S"),
            party_kind: PartyKind::Supplier,
            status: DocumentStatus::Draft,
            payment_status: PaymentStatus::Paid,
            total_amount: 0,
            paid_amount: 0,
            notes: None,
            created_at: text(""),
            updated_at: text(""),
            created_by: None,
        };
        ledger.create_in_year(doc, &year).unwrap();
    }
    assert_eq!(
        ledger.next_number(DocumentKind::PurchaseOrder, TransactionType::Purchase, &year),
        "ORD-2025-001"
    );
    ledger.documents.pop();
    assert_eq!(
        ledger.next_number(DocumentKind::PurchaseOrder, TransactionType::Purchase, &year),
        "ORD-2025-042"
    );
    assert_eq!(
        ledger.next_number(DocumentKind::PurchaseOrder, TransactionType::Purchase, &text("2024")),
        "ORD-2024-901"
    );
}

#[test]
fn status_words_are_read_back() {
    for status in [DocumentStatus::Draft, DocumentStatus::Completed, DocumentStatus::Cancelled] {
        assert_eq!(DocumentStatus::parse(&text(status.as_str())), Ok(status));
    }
    assert_eq!(DocumentStatus::Draft.as_str(), "draft");
    assert_eq!(DocumentStatus::parse(&text("Completed")), Err(LedgerError::InvalidStatus));
    for status in [PaymentStatus::Unpaid, PaymentStatus::Partial, PaymentStatus::Paid] {
        assert_eq!(PaymentStatus::parse(&text(status.as_str())), Ok(status));
    }
    assert_eq!(PaymentStatus::parse(&text("Partially")), Err(LedgerError::InvalidStatus));
    for flow in [TransactionType::Sale, TransactionType::Purchase] {
        assert_eq!(TransactionType::parse(&text(flow.as_str())), Ok(flow));
    }
    assert_eq!(TransactionType::parse(&text("sale")), Err(LedgerError::InvalidStatus));
    for kind in [PartyKind::Client, PartyKind::Supplier] {
        assert_eq!(PartyKind::parse(&text(kind.as_str())), Ok(kind));
    }
    assert_eq!(PartyKind::parse(&text("")), Err(LedgerError::InvalidStatus));
    assert_eq!(LedgerError::PartyNotFound.message(), "Counterparty not found");
    assert_eq!(
        LedgerError::SessionAlreadyOpen.message(),
        "A session is already open. Close it before starting a new one."
    );
}

#[test]
fn line_items_compute_their_total() {
    let item = LineItem::new(text("L"), text("D"), None, text("thing"), 10, 2_000_000, None).unwrap();
    assert_eq!(item.total_price, 20_000_000);
    assert!(item.is_valid());
    assert!(LineItem::new(text("L"), text("D"), None, text("thing"), -1, 5, None).is_none());
    assert!(LineItem::new(text("L"), text("D"), None, text("thing"), 3, i64::MAX / 2, None).is_none());
    let zero = LineItem::new(text("L"), text("D"), None, text("thing"), 0, i64::MIN, None).unwrap();
    assert_eq!(zero.total_price, 0);
    let mut items = vec![item, zero];
    assert_eq!(total_of(&items), Some(20_000_000));
    items[1].total_price = i64::MAX;
    assert_eq!(total_of(&items), None);
    assert_eq!(total_of(&Vec::new()), Some(0));
    assert_eq!(paid_of(&Vec::new()), Some(0));
}

fn entry(id: &str, number: &str) -> DocumentEntry {
    DocumentEntry {
        doc: Document {
            id: text(id),
            number: text(number),
            kind: DocumentKind::CustomerSale,
            transaction_type: TransactionType::Sale,
            party_id: text("C"),
            party_kind: PartyKind::Client,
            status: DocumentStatus::Draft,
            payment_status: PaymentStatus::Partial,
            total_amount: 10,
            paid_amount: 4,
            notes: None,
            created_at: text(""),
            updated_at: text(""),
            created_by: None,
        },
        items: vec![LineItem::new(text("L1"), text(id), Some(text("I")), text("x"), 2, 5, None).unwrap()],
        payments: vec![Payment {
            id: text("PAY1"),
            document_id: text(id),
            amount: 4,
            method: text("cash"),
            date: text(""),
            received_by: None,
            notes: None,
            session_id: None,
        }],
    }
}

fn loaded() -> Ledger {
    let mut ledger = Ledger::new();
    ledger.parties.push(Party { id: text("C"), kind: PartyKind::Client, name: text("C"), credit_balance: None });
    ledger.inventory.push(InventoryItem {
        id: text("I"),
        item_name: text("I"),
        quantity_in_stock: None,
        low_stock_threshold: None,
    });
    ledger.documents.push(entry("S1", "SALE-2025-001"));
    ledger.documents.push(entry("S2", "SALE-2025-002"));
    ledger
}

#[test]
fn a_loaded_ledger_is_checked() {
    assert!(Ledger::new().is_consistent());
    assert!(loaded().is_consistent());
    let mut l = loaded();
    l.documents[0].doc.total_amount = 11;
    assert!(!l.is_consistent());
    let mut l = loaded();
    l.documents[0].doc.paid_amount = 5;
    assert!(!l.is_consistent());
    let mut l = loaded();
    l.documents[0].doc.payment_status = PaymentStatus::Paid;
    assert!(!l.is_consistent());
    let mut l = loaded();
    l.documents[1].doc.id = text("S1");
    l.documents[1].items[0].document_id = text("S1");
    l.documents[1].payments[0].document_id = text("S1");
    assert!(!l.is_consistent());
    let mut l = loaded();
    l.documents[1].doc.number = text("SALE-2025-001");
    assert!(!l.is_consistent());
    let mut l = loaded();
    l.documents[1].doc.party_id = text("nobody");
    assert!(!l.is_consistent());
    let mut l = loaded();
    l.documents[1].items[0].item_id = Some(text("ghost"));
    assert!(!l.is_consistent());
    let mut l = loaded();
    l.documents[1].items[0].document_id = text("S1");
    assert!(!l.is_consistent());
    let mut l = loaded();
    l.documents[1].doc.party_kind = PartyKind::Supplier;
    assert!(!l.is_consistent());
    let mut l = loaded();
    let again = LineItem::new(text("L1"), text("S1"), None, text("y"), 0, 0, None).unwrap();
    l.documents[0].items.push(again);
    assert!(!l.is_consistent());
    let mut l = loaded();
    l.documents[0].payments[0].amount = 0;
    l.documents[0].doc.paid_amount = 0;
    l.documents[0].doc.payment_status = PaymentStatus::Unpaid;
    assert!(!l.is_consistent());
    let mut l = loaded();
    l.parties.push(Party { id: text("C"), kind: PartyKind::Client, name: text("twin"), credit_balance: None });
    assert!(!l.is_consistent());
    let mut l = loaded();
    l.inventory.push(InventoryItem {
        id: text("I"),
        item_name: text("twin"),
        quantity_in_stock: None,
        low_stock_threshold: None,
    });
    assert!(!l.is_consistent());
}

#[test]
fn a_copy_holds_the_same() {
    let ledger = loaded();
    let copy = ledger.copy();
    assert_eq!(copy.documents.len(), 2);
    assert_eq!(copy.documents[1].doc.number, "SALE-2025-002");
    assert_eq!(copy.documents[1].items[0].id, "L1");
    assert_eq!(copy.documents[1].payments[0].amount, 4);
    assert_eq!(copy.parties[0].id, "C");
    assert_eq!(copy.inventory[0].id, "I");
    assert!(copy.is_consistent());
}

#[test]
fn sessions_open_and_close_in_turn() {
    let mut book = SessionBook::new();
    let mut ledger = loaded();
    ledger.documents[1].payments[0].session_id = Some(text("earlier"));
    assert_eq!(book.get_last_session_closing_balance(), 0);
    assert!(book.get_current_session().is_none());
    let first = book.start_session(50_000_000, Some(text("morning")), Some(text("dan"))).unwrap();
    assert_eq!(first.status, SessionStatus::Open);
    assert_eq!(first.opening_balance, 50_000_000);
    assert_eq!(first.id.len(), 36);
    assert!(first.end_time.is_none());
    assert_eq!(book.get_current_session().unwrap().id, first.id);
    assert_eq!(
        book.start_session(1, None, None).unwrap_err(),
        LedgerError::SessionAlreadyOpen
    );
    assert_eq!(
        close_session(&mut book, &mut ledger, &text("other"), 1, 1, None),
        Err(LedgerError::SessionNotOpen)
    );
    assert_eq!(
        close_session(&mut book, &mut ledger, &first.id, i64::MAX, -1, None),
        Err(LedgerError::AmountOverflow)
    );
    assert_eq!(ledger.documents[0].payments[0].session_id, None);
    close_session(&mut book, &mut ledger, &first.id, 80_000_000, 30_000_000, None).unwrap();
    let closed = &book.sessions[0];
    assert_eq!(closed.status, SessionStatus::Closed);
    assert_eq!(closed.closing_balance, Some(50_000_000));
    assert_eq!(closed.counted_amount, Some(80_000_000));
    assert_eq!(closed.withdrawal_amount, Some(30_000_000));
    assert_eq!(closed.notes.as_deref(), Some("morning"));
    assert!(closed.end_time.is_some());
    assert_eq!(ledger.documents[0].payments[0].session_id.as_deref(), Some(first.id.as_str()));
    assert_eq!(ledger.documents[1].payments[0].session_id.as_deref(), Some("earlier"));
    assert!(ledger.is_consistent());
    assert!(book.get_current_session().is_none());
    assert_eq!(book.get_last_session_closing_balance(), 50_000_000);
    assert_eq!(
        close_session(&mut book, &mut ledger, &first.id, 1, 1, None),
        Err(LedgerError::SessionNotOpen)
    );
    let second = book.start_session(50_000_000, None, None).unwrap();
    assert_eq!(book.get_last_session_closing_balance(), 50_000_000);
    book.close_session(&second.id, 10, 3, Some(text("evening"))).unwrap();
    assert_eq!(book.get_last_session_closing_balance(), 7);
    assert_eq!(book.sessions[1].notes.as_deref(), Some("evening"));
    assert!(book.is_consistent());
    book.sessions[0].status = SessionStatus::Open;
    assert!(!book.is_consistent());
}
