use vending_machine::catalog::Catalog;
use vending_machine::catalog::Category;
use vending_machine::catalog::Product;
use vending_machine::controller::purchase;
use vending_machine::controller::PurchaseResult;
use vending_machine::interpreter::interpret;
use vending_machine::interpreter::Command;
use vending_machine::ledger::CreditLedger;
use vending_machine::machine::Outcome;
use vending_machine::machine::VendingMachine;

#[test]
fn fresh_machine_has_seed_catalog_and_zero_credit() {
    let m = VendingMachine::new();
    assert_eq!(m.credit(), 0);
    assert_eq!(m.product_count(), 8);
    let expected: [(i32, u64, u32); 8] = [
        (10, 120, 5),
        (11, 140, 4),
        (12, 80, 8),
        (20, 110, 6),
        (21, 130, 3),
        (22, 100, 2),
        (30, 550, 2),
        (31, 800, 1),
    ];
    for (i, (id, price, stock)) in expected.iter().enumerate() {
        let p = m.product_at(i);
        assert_eq!(p.id, *id);
        assert_eq!(p.price, *price);
        assert_eq!(p.stock, *stock);
    }
    assert_eq!(m.product_at(0).category, Category::Drink);
    assert_eq!(m.product_at(3).category, Category::Snack);
    assert_eq!(m.product_at(7).category, Category::Tech);
    assert_eq!(m.product_at(0).name, "Coca-Cola Zero");
    assert_eq!(m.product_at(7).name, "Ecouteurs");
}

#[test]
fn each_denomination_increases_credit_by_exactly_its_value() {
    let mut m = VendingMachine::new();
    assert_eq!(m.handle_command(1), Outcome::CoinAccepted { new_credit: 10 });
    assert_eq!(m.handle_command(2), Outcome::CoinAccepted { new_credit: 30 });
    assert_eq!(m.handle_command(3), Outcome::CoinAccepted { new_credit: 80 });
    assert_eq!(m.handle_command(4), Outcome::CoinAccepted { new_credit: 180 });
    assert_eq!(m.handle_command(5), Outcome::CoinAccepted { new_credit: 380 });
    assert_eq!(m.credit(), 380);
    // Deposits change nothing else: every stock is still the seed stock.
    assert_eq!(m.stock_of(10), Some(5));
    assert_eq!(m.stock_of(31), Some(1));
}

#[test]
fn ledger_deposit_and_debit_are_exact() {
    let mut l = CreditLedger::new();
    assert_eq!(l.credit(), 0);
    l.deposit(50);
    l.deposit(200);
    assert_eq!(l.credit(), 250);
    l.debit(130);
    assert_eq!(l.credit(), 120);
}

#[test]
fn refund_returns_balance_and_is_idempotent() {
    let mut l = CreditLedger::new();
    l.deposit(100);
    l.deposit(20);
    assert_eq!(l.refund(), 120);
    assert_eq!(l.credit(), 0);
    assert_eq!(l.refund(), 0);
    assert_eq!(l.credit(), 0);
}

#[test]
fn scenario_three_euro_coins_then_snack() {
    let mut m = VendingMachine::new();
    m.handle_command(4);
    m.handle_command(4);
    m.handle_command(4);
    assert_eq!(m.credit(), 300);
    let o = m.handle_command(21);
    assert_eq!(
        o,
        Outcome::Purchase(PurchaseResult::Success { product_name: String::from("M&Ms Peanut") })
    );
    assert_eq!(m.stock_of(21), Some(2));
    assert_eq!(m.credit(), 170);
}

#[test]
fn scenario_purchase_with_empty_ledger_reports_full_price_missing() {
    let mut m = VendingMachine::new();
    let o = m.handle_command(31);
    assert_eq!(o, Outcome::Purchase(PurchaseResult::InsufficientCredit { missing: 800 }));
    assert_eq!(m.stock_of(31), Some(1));
    assert_eq!(m.credit(), 0);
}

#[test]
fn scenario_command_99_is_refund_not_a_product() {
    let mut m = VendingMachine::new();
    m.handle_command(1);
    assert_eq!(m.credit(), 10);
    let o = m.handle_command(99);
    assert_eq!(o, Outcome::Refunded { amount: 10 });
    assert_eq!(m.credit(), 0);
}

#[test]
fn scenario_unknown_id_is_not_found_whatever_the_credit() {
    let mut m = VendingMachine::new();
    let o = m.handle_command(999);
    assert_eq!(o, Outcome::Purchase(PurchaseResult::ProductNotFound));
    m.handle_command(5);
    m.handle_command(5);
    let o = m.handle_command(999);
    assert_eq!(o, Outcome::Purchase(PurchaseResult::ProductNotFound));
    assert_eq!(m.credit(), 400);
}

#[test]
fn successful_purchase_leaves_other_stocks_alone() {
    let mut m = VendingMachine::new();
    m.handle_command(5);
    let o = m.handle_command(22);
    assert_eq!(
        o,
        Outcome::Purchase(PurchaseResult::Success { product_name: String::from("Chips Nature") })
    );
    assert_eq!(m.credit(), 100);
    assert_eq!(m.stock_of(22), Some(1));
    for (id, stock) in [(10, 5), (11, 4), (12, 8), (20, 6), (21, 3), (30, 2), (31, 1)] {
        assert_eq!(m.stock_of(id), Some(stock));
    }
}

#[test]
fn exhausted_product_reports_out_of_stock_even_with_credit() {
    let mut m = VendingMachine::new();
    for _ in 0..9 {
        m.handle_command(5); // 9 * 2.00 = 18.00
    }
    assert_eq!(
        m.handle_command(31),
        Outcome::Purchase(PurchaseResult::Success { product_name: String::from("Ecouteurs") })
    );
    assert_eq!(m.stock_of(31), Some(0));
    let credit_before = m.credit();
    assert_eq!(m.handle_command(31), Outcome::Purchase(PurchaseResult::OutOfStock));
    assert_eq!(m.credit(), credit_before);
    assert_eq!(m.stock_of(31), Some(0));
}

#[test]
fn insufficient_credit_reports_exact_shortfall() {
    let mut m = VendingMachine::new();
    m.handle_command(4); // 1.00, price of id 21 is 1.30
    assert_eq!(
        m.handle_command(21),
        Outcome::Purchase(PurchaseResult::InsufficientCredit { missing: 30 })
    );
    assert_eq!(m.credit(), 100);
    assert_eq!(m.stock_of(21), Some(3));
}

#[test]
fn quit_command_changes_nothing() {
    let mut m = VendingMachine::new();
    m.handle_command(2);
    assert_eq!(m.handle_command(0), Outcome::Quit);
    assert_eq!(m.credit(), 20);
    assert_eq!(m.product_count(), 8);
}

#[test]
fn interpret_routes_every_command_kind() {
    assert_eq!(interpret(0), Command::Quit);
    assert_eq!(interpret(1), Command::Deposit(10));
    assert_eq!(interpret(2), Command::Deposit(20));
    assert_eq!(interpret(3), Command::Deposit(50));
    assert_eq!(interpret(4), Command::Deposit(100));
    assert_eq!(interpret(5), Command::Deposit(200));
    assert_eq!(interpret(99), Command::Refund);
    assert_eq!(interpret(6), Command::Purchase(6));
    assert_eq!(interpret(-3), Command::Purchase(-3));
    assert_eq!(interpret(999), Command::Purchase(999));
}

#[test]
fn icons_follow_the_category() {
    let m = VendingMachine::new();
    assert_eq!(m.product_at(0).get_icon(), "[Drink]");
    assert_eq!(m.product_at(4).get_icon(), "[Snack]");
    assert_eq!(m.product_at(6).get_icon(), "[Tech ]");
}

#[test]
fn controller_checks_existence_before_stock_and_credit() {
    let products = vec![
        Product {
            id: 7,
            name: String::from("Gum"),
            price: 60,
            stock: 0,
            category: Category::Snack,
        },
    ];
    let mut catalog = Catalog::new(products);
    let mut ledger = CreditLedger::new();
    // Unknown id wins over the empty ledger.
    assert_eq!(purchase(&mut catalog, &mut ledger, 8), PurchaseResult::ProductNotFound);
    // Stock wins over credit: id 7 is out of stock and the ledger is empty.
    assert_eq!(purchase(&mut catalog, &mut ledger, 7), PurchaseResult::OutOfStock);
    assert_eq!(ledger.credit(), 0);
}
