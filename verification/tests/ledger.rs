use std::collections::{HashMap, HashSet};

use credit_ledger::amount::CreditAmount;
use credit_ledger::credits::{Credits, LedgerError};
use credit_ledger::transactions::{
    CreditTransaction, CreditTransactionCreate, CreditTransactionType,
};
use credit_ledger::types::{TransactionId, UserId};

fn amount(micros: u64) -> CreditAmount {
    CreditAmount { micros }
}

fn request(
    user_id: UserId,
    transaction_type: CreditTransactionType,
    micros: u64,
    description: Option<&str>,
) -> CreditTransactionCreate {
    CreditTransactionCreate {
        user_id,
        transaction_type,
        amount: amount(micros),
        description: description.map(|d| d.to_string()),
    }
}

fn test_user(n: u64) -> UserId {
    UserId { hi: n, lo: n.wrapping_mul(31) }
}

#[test]
fn test_get_user_balance_zero_for_new_user() {
    let credits = Credits::new();
    let user_id = test_user(1);

    let balance = credits.get_user_balance(user_id);
    assert_eq!(balance, amount(0));
}

#[test]
fn test_create_transaction_admin_grant() {
    let mut credits = Credits::new();
    let user_id = test_user(2);

    let req = request(user_id, CreditTransactionType::AdminGrant, 100_500_000, Some("Test grant"));
    let transaction = credits.create_transaction(&req).expect("Failed to create transaction");

    assert_eq!(transaction.user_id, user_id);
    assert_eq!(transaction.transaction_type, CreditTransactionType::AdminGrant);
    assert_eq!(transaction.amount, amount(100_500_000));
    assert_eq!(transaction.balance_after, amount(100_500_000));
    assert_eq!(transaction.description, Some("Test grant".to_string()));
}

#[test]
fn test_get_user_balance_after_transactions() {
    let mut credits = Credits::new();
    let user_id = test_user(3);

    // Add credits
    let req1 = request(user_id, CreditTransactionType::AdminGrant, 100_000_000, None);
    credits.create_transaction(&req1).expect("Failed to create transaction");

    let balance = credits.get_user_balance(user_id);
    assert_eq!(balance, amount(100_000_000));

    // Add more credits
    let req2 = request(user_id, CreditTransactionType::AdminGrant, 50_000_000, None);
    credits.create_transaction(&req2).expect("Failed to create transaction");

    let balance = credits.get_user_balance(user_id);
    assert_eq!(balance, amount(150_000_000));
}

#[test]
fn test_rejection_if_balance_is_insufficient() {
    let mut credits = Credits::new();
    let user_id = test_user(4);

    // Try to remove credits by admin removal when the balance is zero
    let req1 = request(user_id, CreditTransactionType::AdminRemoval, 100_000_000, None);
    let result = credits.create_transaction(&req1);
    match result {
        Err(LedgerError::InsufficientBalance) => {
            // Expected error
        }
        _ => panic!("Expected InsufficientBalance error due to insufficient balance"),
    }

    // Create a first transaction with a positive balance
    let req2 = request(user_id, CreditTransactionType::AdminGrant, 100_500_000, None);
    let transaction1 = credits.create_transaction(&req2).expect("Failed to create first transaction");
    assert_eq!(transaction1.balance_after, amount(100_500_000));

    // Try to remove credits by usage that exceeds the balance
    let req3 = request(user_id, CreditTransactionType::Usage, 1_050_000_000, None);
    let result = credits.create_transaction(&req3);
    match result {
        Err(LedgerError::InsufficientBalance) => {
            // Expected error
        }
        _ => panic!("Expected InsufficientBalance error due to insufficient balance"),
    }
}

#[test]
fn test_create_transaction_balance_after_multiple_transactions() {
    let mut credits = Credits::new();
    let user_id = test_user(5);

    let req1 = request(user_id, CreditTransactionType::AdminGrant, 100_500_000, None);
    let transaction1 = credits.create_transaction(&req1).expect("Failed to create first transaction");

    assert_eq!(transaction1.user_id, user_id);
    assert_eq!(transaction1.transaction_type, CreditTransactionType::AdminGrant);
    assert_eq!(transaction1.amount, amount(100_500_000));
    assert_eq!(transaction1.balance_after, amount(100_500_000));
    assert_eq!(transaction1.description, None);
    assert_eq!(transaction1.previous_transaction_id, None);

    let req2 = request(user_id, CreditTransactionType::AdminGrant, 50_000_000, None);
    let transaction2 = credits.create_transaction(&req2).expect("Failed to create second transaction");

    assert_eq!(transaction2.user_id, user_id);
    assert_eq!(transaction2.transaction_type, CreditTransactionType::AdminGrant);
    assert_eq!(transaction2.amount, amount(50_000_000));
    assert_eq!(transaction2.balance_after, amount(150_500_000));
    assert_eq!(transaction2.description, None);
    assert_eq!(transaction2.previous_transaction_id, Some(transaction1.id));

    let req3 = request(
        user_id,
        CreditTransactionType::AdminRemoval,
        30_000_000,
        Some("Usage deduction"),
    );
    let transaction3 = credits.create_transaction(&req3).expect("Failed to create third transaction");

    assert_eq!(transaction3.user_id, user_id);
    assert_eq!(transaction3.transaction_type, CreditTransactionType::AdminRemoval);
    assert_eq!(transaction3.amount, amount(30_000_000));
    assert_eq!(transaction3.balance_after, amount(120_500_000));
    assert_eq!(transaction3.description, Some("Usage deduction".to_string()));
    assert_eq!(transaction3.previous_transaction_id, Some(transaction2.id));
}

#[test]
fn test_list_user_transactions_ordering() {
    let mut credits = Credits::new();
    let user_id = test_user(6);
    let n_of_transactions: u64 = 10;

    for i in 1..n_of_transactions + 1 {
        let req = request(
            user_id,
            CreditTransactionType::AdminGrant,
            i * 10 * 1_000_000,
            Some(&format!("Transaction {}", i + 1)),
        );
        credits.create_transaction(&req).expect("Failed to create transaction");
    }

    let transactions = credits.list_user_transactions(user_id, 0, n_of_transactions as usize);

    // Should be ordered most recent first: created_at descending, id descending
    assert_eq!(transactions.len(), n_of_transactions as usize);
    for i in 0..(transactions.len() - 1) {
        let t1 = &transactions[i];
        let t2 = &transactions[i + 1];
        assert!(
            t1.created_at >= t2.created_at,
            "Transactions are not ordered by created_at DESC"
        );
        if t1.created_at == t2.created_at {
            assert!(
                t1.id.raw > t2.id.raw,
                "Transactions with same created_at are not ordered by id DESC"
            );
        }
    }
}

#[test]
fn test_get_user_transaction() {
    let mut credits = Credits::new();
    let user_id = test_user(7);
    let n_of_transactions: u64 = 10;
    let mut transaction_ids = Vec::new();

    for i in 1..n_of_transactions + 1 {
        let req = request(
            user_id,
            CreditTransactionType::AdminGrant,
            i * 10 * 1_000_000,
            Some(&format!("Transaction {}", i + 1)),
        );
        transaction_ids
            .push(credits.create_transaction(&req).expect("Failed to create transaction").id);
    }

    let mut total_balance: u64 = 0;
    for i in 1..(n_of_transactions as usize) + 1 {
        match credits.get_transaction_by_id(transaction_ids[i - 1]) {
            Some(tx) => {
                assert_eq!(tx.id, transaction_ids[i - 1]);
                assert_eq!(tx.user_id, user_id);
                assert_eq!(tx.transaction_type, CreditTransactionType::AdminGrant);
                assert_eq!(tx.amount, amount(i as u64 * 10 * 1_000_000));
                assert_eq!(tx.description, Some(format!("Transaction {}", i + 1)));
                total_balance += tx.amount.micros;
                assert_eq!(tx.balance_after, amount(total_balance));
            }
            None => panic!("Transaction ID {:?} not found", transaction_ids[i - 1]),
        };
    }
    // A nonexistent transaction ID returns None
    assert!(credits.get_transaction_by_id(TransactionId { raw: 999_999 }).is_none());
}

#[test]
fn test_list_user_transactions_pagination() {
    let mut credits = Credits::new();
    let user_id = test_user(8);

    // Create 5 transactions
    for i in 1..=5u64 {
        let req = request(user_id, CreditTransactionType::AdminGrant, i * 10 * 1_000_000, None);
        credits.create_transaction(&req).expect("Failed to create transaction");
    }

    // Test limit
    let transactions = credits.list_user_transactions(user_id, 0, 2);
    assert_eq!(transactions.len(), 2);

    // Test skip
    let transactions = credits.list_user_transactions(user_id, 2, 2);
    assert_eq!(transactions.len(), 2);

    // Test skip beyond available
    let transactions = credits.list_user_transactions(user_id, 10, 2);
    assert_eq!(transactions.len(), 0);
}

#[test]
fn test_list_user_transactions_filters_by_user() {
    let mut credits = Credits::new();
    let user1_id = test_user(9);
    let user2_id = test_user(10);

    let req1 = request(user1_id, CreditTransactionType::AdminGrant, 100_000_000, None);
    credits.create_transaction(&req1).expect("Failed to create transaction");

    let req2 = request(user2_id, CreditTransactionType::AdminGrant, 200_000_000, None);
    credits.create_transaction(&req2).expect("Failed to create transaction");

    // List user1's transactions
    let transactions = credits.list_user_transactions(user1_id, 0, 10);
    assert_eq!(transactions.len(), 1);
    assert_eq!(transactions[0].user_id, user1_id);
    assert_eq!(transactions[0].balance_after, amount(100_000_000));

    // List user2's transactions
    let transactions = credits.list_user_transactions(user2_id, 0, 10);
    assert_eq!(transactions.len(), 1);
    assert_eq!(transactions[0].user_id, user2_id);
    assert_eq!(transactions[0].balance_after, amount(200_000_000));

    // List a nonexistent user's transactions
    let transactions = credits.list_user_transactions(test_user(11), 0, 10);
    assert_eq!(transactions.len(), 0);
}

#[test]
fn test_list_all_transactions() {
    let mut credits = Credits::new();
    let user1_id = test_user(12);
    let user2_id = test_user(13);

    let req1 = request(
        user1_id,
        CreditTransactionType::AdminGrant,
        100_000_000,
        Some("User 1 grant"),
    );
    credits.create_transaction(&req1).expect("Failed to create transaction");

    let req2 = request(
        user2_id,
        CreditTransactionType::AdminGrant,
        200_000_000,
        Some("User 2 grant"),
    );
    credits.create_transaction(&req2).expect("Failed to create transaction");

    let transactions = credits.list_all_transactions(0, 10);

    // Should have at least our 2 transactions
    assert!(transactions.len() >= 2);

    // Verify both users' transactions are present
    assert!(transactions.iter().any(|t| t.user_id == user1_id));
    assert!(transactions.iter().any(|t| t.user_id == user2_id));
}

#[test]
fn test_list_all_transactions_pagination() {
    let mut credits = Credits::new();

    // Create 9 transactions across distinct users
    for i in 1..10u64 {
        let req = request(
            test_user(100 + i),
            CreditTransactionType::AdminGrant,
            i * 10 * 1_000_000,
            None,
        );
        credits.create_transaction(&req).expect("Failed to create transaction");
    }

    // Test limit
    let transactions = credits.list_all_transactions(0, 2);
    assert_eq!(transactions.len(), 2);

    // Test skip
    let transactions = credits.list_all_transactions(2, 2);
    assert!(transactions.len() >= 2);
}

#[test]
fn test_create_transaction_with_all_transaction_types() {
    let mut credits = Credits::new();
    let user_id = test_user(14);

    // Test AdminGrant
    let req = request(user_id, CreditTransactionType::AdminGrant, 100_000_000, Some("Grant"));
    let tx = credits.create_transaction(&req).expect("Failed to create AdminGrant");
    assert_eq!(tx.transaction_type, CreditTransactionType::AdminGrant);

    // Test Purchase
    let req = request(user_id, CreditTransactionType::Purchase, 50_000_000, Some("Purchase"));
    let tx = credits.create_transaction(&req).expect("Failed to create Purchase");
    assert_eq!(tx.transaction_type, CreditTransactionType::Purchase);

    // Test Usage
    let req = request(user_id, CreditTransactionType::Usage, 25_000_000, Some("Usage"));
    let tx = credits.create_transaction(&req).expect("Failed to create Usage");
    assert_eq!(tx.transaction_type, CreditTransactionType::Usage);

    // Test AdminRemoval
    let req = request(user_id, CreditTransactionType::AdminRemoval, 25_000_000, Some("Removal"));
    let tx = credits.create_transaction(&req).expect("Failed to create AdminRemoval");
    assert_eq!(tx.transaction_type, CreditTransactionType::AdminRemoval);

    // Verify final balance
    let balance = credits.get_user_balance(user_id);
    assert_eq!(balance, amount(100_000_000));
}

#[test]
fn test_transaction_rollback_on_error() {
    let mut credits = Credits::new();
    let user_id = test_user(15);

    // Create a valid transaction
    let req1 = request(user_id, CreditTransactionType::AdminGrant, 100_000_000, None);
    credits.create_transaction(&req1).expect("Failed to create transaction");

    // Try to create an invalid transaction (insufficient balance for removal)
    let req2 = request(user_id, CreditTransactionType::AdminRemoval, 200_000_000, None);
    let result = credits.create_transaction(&req2);
    assert!(result.is_err());

    // Verify the balance hasn't changed (nothing was committed)
    let balance = credits.get_user_balance(user_id);
    assert_eq!(balance, amount(100_000_000));

    // Verify only one transaction exists
    let transactions = credits.list_user_transactions(user_id, 0, 10);
    assert_eq!(transactions.len(), 1);
}

/// Walks a user's transactions from head to tail through
/// `previous_transaction_id`, checking that the walk terminates, visits each
/// transaction exactly once, and that every balance follows from its
/// predecessor's balance and the transaction's signed amount.
fn validate_chain(transactions: &[CreditTransaction]) -> u64 {
    let tx_map: HashMap<u64, &CreditTransaction> =
        transactions.iter().map(|tx| (tx.id.raw, tx)).collect();

    // The head is the transaction no other transaction references
    let mut is_previous = HashSet::new();
    for tx in transactions {
        if let Some(prev_id) = tx.previous_transaction_id {
            is_previous.insert(prev_id.raw);
        }
    }
    let head = transactions
        .iter()
        .find(|tx| !is_previous.contains(&tx.id.raw))
        .expect("Failed to find head of transaction chain");

    let mut current = Some(head);
    let mut visited = HashSet::new();
    let mut count: u64 = 0;
    while let Some(tx) = current {
        if !visited.insert(tx.id.raw) {
            panic!("Cycle detected in transaction chain at id={}", tx.id.raw);
        }
        count += 1;
        if let Some(prev_id) = tx.previous_transaction_id {
            let prev_tx = tx_map
                .get(&prev_id.raw)
                .unwrap_or_else(|| panic!("Previous transaction {} not found", prev_id.raw));
            let expected_balance = match tx.transaction_type {
                CreditTransactionType::AdminGrant | CreditTransactionType::Purchase => {
                    prev_tx.balance_after.micros + tx.amount.micros
                }
                CreditTransactionType::AdminRemoval | CreditTransactionType::Usage => {
                    prev_tx.balance_after.micros - tx.amount.micros
                }
            };
            assert_eq!(
                tx.balance_after.micros, expected_balance,
                "Transaction {} has wrong balance",
                tx.id.raw
            );
            current = Some(prev_tx);
        } else {
            assert_eq!(
                tx.balance_after, tx.amount,
                "Initial transaction should have balance_after == amount"
            );
            current = None;
        }
    }
    head.balance_after.micros
}

#[test]
fn test_mixed_appends_form_one_unbroken_chain() {
    let mut credits = Credits::new();
    let user_id = test_user(16);

    // Initial balance of 1000 credits
    let initial = request(
        user_id,
        CreditTransactionType::AdminGrant,
        1_000_000_000,
        Some("Initial balance"),
    );
    credits.create_transaction(&initial).expect("Failed to create initial transaction");

    // 100 appends: 50 grants of 10 and 50 removals of 5, interleaved
    for i in 0..100u64 {
        let req = if i % 2 == 0 {
            request(
                user_id,
                CreditTransactionType::AdminGrant,
                10_000_000,
                Some(&format!("Batch transaction {i}")),
            )
        } else {
            request(
                user_id,
                CreditTransactionType::AdminRemoval,
                5_000_000,
                Some(&format!("Batch transaction {i}")),
            )
        };
        credits.create_transaction(&req).expect("Failed to create transaction");
    }

    let transactions = credits.list_user_transactions(user_id, 0, 1000);
    assert_eq!(transactions.len(), 101, "Expected 1 initial + 100 batch transactions");

    let head_balance = validate_chain(&transactions);

    // 1000 + 50 * 10 - 50 * 5 = 1250 credits
    assert_eq!(head_balance, 1_250_000_000);
    let final_balance = credits.get_user_balance(user_id);
    assert_eq!(final_balance.micros, head_balance);
}

#[test]
fn test_multiple_users_mixed_appends_stay_isolated() {
    let mut credits = Credits::new();
    let user_ids: Vec<UserId> = (0..10u64).map(|n| test_user(200 + n)).collect();

    // Initial balance of 1000 credits for each user
    for user_id in &user_ids {
        let initial = request(
            *user_id,
            CreditTransactionType::AdminGrant,
            1_000_000_000,
            Some("Initial balance"),
        );
        credits.create_transaction(&initial).expect("Failed to create initial transaction");
    }

    // 1000 appends distributed across the users, grants and removals mixed
    for i in 0..1000u64 {
        let user_id = user_ids[(i % 10) as usize];
        let req = if i % 2 == 0 {
            request(user_id, CreditTransactionType::AdminGrant, 10_000_000, None)
        } else {
            request(user_id, CreditTransactionType::AdminRemoval, 5_000_000, None)
        };
        credits.create_transaction(&req).expect("Failed to create transaction");
    }

    // Validate each user's chain independently.  Users at even positions
    // received 100 grants of 10; users at odd positions 100 removals of 5.
    for (pos, user_id) in user_ids.iter().enumerate() {
        let transactions = credits.list_user_transactions(*user_id, 0, 10_000);
        assert_eq!(
            transactions.len(),
            101,
            "Each user should have 101 transactions (1 initial + 100 batch)"
        );
        let head_balance = validate_chain(&transactions);
        let final_balance = credits.get_user_balance(*user_id);
        assert_eq!(final_balance.micros, head_balance);
        let expected = if pos % 2 == 0 {
            1_000_000_000 + 100 * 10_000_000
        } else {
            1_000_000_000 - 100 * 5_000_000
        };
        assert_eq!(head_balance, expected);
    }
}
