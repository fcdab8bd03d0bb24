use hft_risk_api::models::Severity;
use hft_risk_api::rules::{
    AccessControlRule, ArithmeticRule, DelegatecallRule, FlashLoanRule, InputValidationRule,
    OracleManipulationRule, ReentrancyRule, TimestampDependenceRule, TxOriginRule,
    UncheckedCallRule,
};
use hft_risk_api::scanner::{OwaspScanner, ScannerConfig};

#[test]
#[allow(unused_comparisons)]
fn test_scanner_scan_bytecode() {
    let scanner = OwaspScanner::new();
    let findings = scanner.scan_bytecode("0x1234", "608060405234801561001057600080fd5b50");
    assert!(findings.len() >= 0);
}

#[test]
fn test_scan_bytecode_detects_delegatecall_opcode() {
    let scanner = OwaspScanner::new();
    let findings = scanner.scan_bytecode("0x1", "6080f4aa");
    assert_eq!(findings.len(), 1);
    assert_eq!(findings[0].category, "OWASP-SC03");
    assert!(matches!(findings[0].severity, Severity::High));
    assert_eq!(findings[0].confidence, 8_500);
}

#[test]
fn test_access_control_bytecode_is_case_insensitive() {
    // The bytecode text is folded to lowercase before matching, so an
    // upper-case marker must still be found.
    let rule = AccessControlRule;
    let hit = rule.check_bytecode("0x1", "CONTRACT OWNER BYTES");
    assert!(hit.is_some());
    assert_eq!(hit.unwrap().category, "OWASP-SC01");
    let miss = rule.check_bytecode("0x1", "no markers here");
    assert!(miss.is_none());
}

#[test]
fn test_access_control_source_rule() {
    let rule = AccessControlRule;
    let unprotected = rule.check_source("0x1", "function kill() { selfdestruct(target); }");
    assert!(unprotected.is_some());
    assert!(matches!(unprotected.unwrap().severity, Severity::High));
    let protected = rule.check_source(
        "0x1",
        "function kill() onlyOwner { selfdestruct(target); }",
    );
    assert!(protected.is_none());
}

#[test]
fn test_arithmetic_source_rule() {
    let rule = ArithmeticRule;
    let old = rule.check_source("0x1", "pragma solidity ^0.6.0; contract C {}");
    assert!(old.is_some());
    assert_eq!(old.unwrap().confidence, 9_000);
    let with_safemath = rule.check_source(
        "0x1",
        "pragma solidity ^0.6.0; using SafeMath for uint256;",
    );
    assert!(with_safemath.is_none());
    let unchecked = rule.check_source("0x1", "pragma solidity ^0.8.0; unchecked { x += 1; }");
    assert!(unchecked.is_some());
    assert_eq!(unchecked.unwrap().confidence, 7_500);
}

#[test]
fn test_reentrancy_source_rule() {
    let rule = ReentrancyRule;
    let bare = rule.check_source("0x1", "recipient.call{value: amount}(\"\");");
    assert!(bare.is_some());
    assert!(matches!(bare.unwrap().severity, Severity::Critical));
    let guarded = rule.check_source(
        "0x1",
        "function withdraw() nonReentrant { recipient.call{value: amount}(\"\"); }",
    );
    assert!(guarded.is_none());
}

#[test]
fn test_unchecked_call_source_rule() {
    let rule = UncheckedCallRule;
    let unchecked = rule.check_source("0x1", "target.call(data);");
    assert!(unchecked.is_some());
    let checked = rule.check_source("0x1", "target.call(data); require(success, \"failed\");");
    assert!(checked.is_none());
}

#[test]
fn test_timestamp_source_rule_grading() {
    let rule = TimestampDependenceRule;
    let critical = rule.check_source("0x1", "uint seed = block.timestamp; // random draw");
    let critical = critical.unwrap();
    assert!(matches!(critical.severity, Severity::High));
    assert_eq!(critical.confidence, 8_500);
    let mild = rule.check_source("0x1", "deadline = block.timestamp + 60;");
    let mild = mild.unwrap();
    assert!(matches!(mild.severity, Severity::Low));
    assert_eq!(mild.confidence, 5_000);
}

#[test]
fn test_tx_origin_source_rule_grading() {
    let rule = TxOriginRule;
    let auth = rule.check_source("0x1", "require(tx.origin == owner);");
    let auth = auth.unwrap();
    assert!(matches!(auth.severity, Severity::Critical));
    assert_eq!(auth.confidence, 9_500);
    let plain = rule.check_source("0x1", "emit Caller(tx.origin);");
    let plain = plain.unwrap();
    assert!(matches!(plain.severity, Severity::Medium));
    assert_eq!(plain.confidence, 8_000);
}

#[test]
fn test_oracle_and_flash_loan_rules() {
    let oracle = OracleManipulationRule;
    assert!(oracle.check_source("0x1", "latestRoundData()").is_some());
    assert!(oracle.check_source("0x1", "plain transfer logic").is_none());

    let flash = FlashLoanRule;
    assert!(flash.check_source("0x1", "executeFlashLoan via Aave").is_some());
    assert!(flash.check_source("0x1", "plain transfer logic").is_none());
}

#[test]
fn test_input_validation_rule() {
    let rule = InputValidationRule;
    let none = rule.check_source("0x1", "function f(uint x) { y = x; }");
    assert!(none.is_some());
    assert_eq!(none.unwrap().confidence, 5_000);
    let validated = rule.check_source("0x1", "function f(uint x) { require(x > 0); }");
    assert!(validated.is_none());
}

#[test]
fn test_transaction_checks_report_nothing() {
    let scanner = OwaspScanner::new();
    let findings = scanner.scan_transaction("0x1", "0xdeadbeef");
    assert!(findings.is_empty());
    assert!(DelegatecallRule.check_transaction("0x1", "f4").is_none());
}

#[test]
fn test_available_rules_default_config() {
    let scanner = OwaspScanner::new();
    let rules = scanner.available_rules();
    assert_eq!(rules.len(), 10);
    assert!(rules.contains(&"ACCESS_CONTROL".to_string()));
    assert!(rules.contains(&"INPUT_VALIDATION".to_string()));
}

#[test]
fn test_disabled_rule_is_skipped() {
    let config = ScannerConfig {
        enable_all: true,
        enabled_rules: Vec::new(),
        disabled_rules: vec!["ACCESS_CONTROL".to_string()],
        timeout_ms: 3000,
    };
    let scanner = OwaspScanner::with_config(config);
    assert_eq!(scanner.available_rules().len(), 9);
    let findings = scanner.scan_source("0x1", "selfdestruct(target); require(x);");
    assert!(findings.iter().all(|f| f.category != "OWASP-SC01"));
}

#[test]
fn test_enable_list_restricts_rules() {
    let config = ScannerConfig {
        enable_all: false,
        enabled_rules: vec!["DELEGATECALL".to_string()],
        disabled_rules: Vec::new(),
        timeout_ms: 3000,
    };
    let scanner = OwaspScanner::with_config(config);
    let rules = scanner.available_rules();
    assert_eq!(rules, vec!["DELEGATECALL".to_string()]);
    let findings = scanner.scan_source("0x1", "delegatecall(data); selfdestruct(t);");
    assert_eq!(findings.len(), 1);
    assert_eq!(findings[0].category, "OWASP-SC03");
}

#[test]
fn test_scan_source_orders_findings_by_rule() {
    let scanner = OwaspScanner::new();
    // Trips access control (selfdestruct unprotected), delegatecall, and
    // input validation stays quiet because a require is present.
    let findings = scanner.scan_source("0x1", "selfdestruct(t); delegatecall(d); require(x);");
    let categories: Vec<&str> = findings.iter().map(|f| f.category.as_str()).collect();
    assert_eq!(categories, vec!["OWASP-SC01", "OWASP-SC03"]);
}
