use lib::loan_stats::LoanAnalyticsContract;

#[test]
fn test_loan_lifecycle() {
    let mut client = LoanAnalyticsContract::new();
    client.record_loan(5000);
    let stats = client.get_stats();
    assert_eq!(stats.total_loaned, 5000);
    assert_eq!(stats.active_loans, 1);
    assert_eq!(stats.defaults, 0);
}

#[test]
fn test_default_handling() {
    let mut client = LoanAnalyticsContract::new();
    client.record_loan(5000);
    client.record_default();
    let stats = client.get_stats();
    assert_eq!(stats.total_loaned, 5000);
    assert_eq!(stats.active_loans, 0);
    assert_eq!(stats.defaults, 1);
}

#[test]
fn default_without_active_loan_keeps_active_at_zero() {
    let mut client = LoanAnalyticsContract::new();
    client.record_default();
    client.record_default();
    let stats = client.get_stats();
    assert_eq!(stats.active_loans, 0);
    assert_eq!(stats.defaults, 2);
    assert_eq!(stats.total_loaned, 0);
}
