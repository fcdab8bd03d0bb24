//! Scanning rules over contract bytecode, source text and transaction data.
//!
//! Each rule is a pure pattern check: it reads the text handed to it and
//! either reports one finding with a fixed category, severity, description
//! and confidence, or reports nothing.  Every rule's behaviour is pinned
//! down exactly by a spec function over the character sequences involved.

use vstd::prelude::*;
use vstd::string::StringExecFns;
use crate::models::{
    FindingView, RiskFinding, Severity, finding_view_opt, opt_finding_wf, CONFIDENCE_MAX_BP,
};
use crate::strutil::{contains_seq, lower_of, lowercase, str_contains};

verus! {

/// Build a finding with no location from fixed rule parameters.
fn make_finding(category: &str, severity: Severity, description: &str, confidence: u32) -> (r:
    RiskFinding)
    requires
        confidence <= CONFIDENCE_MAX_BP,
    ensures
        r@ == (FindingView {
            category: category@,
            severity,
            description: description@,
            location: None,
            confidence: confidence as int,
        }),
        r.wf(),
{
    RiskFinding {
        category: String::from_str(category),
        severity,
        description: String::from_str(description),
        location: None,
        confidence,
    }
}

// ============================================================================
// Access control
// ============================================================================

/// Finding reported for bytecode that shows access-control markers; `lb` is
/// the lowercased bytecode text.
pub open spec fn access_control_bytecode_spec(lb: Seq<char>) -> Option<FindingView> {
    if contains_seq(lb, "owner"@) || contains_seq(lb, "onlyOwner"@) || contains_seq(lb, "admin"@)
        || contains_seq(lb, "role"@) {
        Some(FindingView {
            category: "OWASP-SC01"@,
            severity: Severity::Medium,
            description: "Contract contains access control mechanisms. Verify proper implementation."@,
            location: None,
            confidence: 7000,
        })
    } else {
        None
    }
}

/// Finding reported for source text with a dangerous call that no
/// access-control modifier protects.
pub open spec fn access_control_source_spec(s: Seq<char>) -> Option<FindingView> {
    if (contains_seq(s, "selfdestruct"@) || contains_seq(s, "delegatecall"@)) && !(contains_seq(
        s,
        "onlyOwner"@,
    ) || contains_seq(s, "onlyAdmin"@) || contains_seq(s, "require(msg.sender == owner)"@)) {
        Some(FindingView {
            category: "OWASP-SC01"@,
            severity: Severity::High,
            description: "Dangerous function may lack proper access control"@,
            location: None,
            confidence: 8000,
        })
    } else {
        None
    }
}

/// Access-control rule.
pub struct AccessControlRule;

impl AccessControlRule {
    /// Rule name.
    pub fn name(&self) -> (r: String)
        ensures
            r@ == "ACCESS_CONTROL"@,
    {
        String::from_str("ACCESS_CONTROL")
    }

    /// Rule category.
    pub fn category(&self) -> (r: String)
        ensures
            r@ == "OWASP-SC01"@,
    {
        String::from_str("OWASP-SC01")
    }

    /// Look for access-control markers in the lowercased bytecode.
    pub fn check_bytecode(&self, contract_address: &str, bytecode: &str) -> (r: Option<
        RiskFinding,
    >)
        ensures
            finding_view_opt(r) == access_control_bytecode_spec(lower_of(bytecode@)),
            opt_finding_wf(r),
    {
        let lb = lowercase(bytecode);
        if str_contains(lb.as_str(), "owner") || str_contains(lb.as_str(), "onlyOwner")
            || str_contains(lb.as_str(), "admin") || str_contains(lb.as_str(), "role") {
            Some(
                make_finding(
                    "OWASP-SC01",
                    Severity::Medium,
                    "Contract contains access control mechanisms. Verify proper implementation.",
                    7000,
                ),
            )
        } else {
            None
        }
    }

    /// Look for dangerous calls without an access-control modifier.
    pub fn check_source(&self, contract_address: &str, source_code: &str) -> (r: Option<
        RiskFinding,
    >)
        ensures
            finding_view_opt(r) == access_control_source_spec(source_code@),
            opt_finding_wf(r),
    {
        if (str_contains(source_code, "selfdestruct") || str_contains(source_code, "delegatecall"))
            && !(str_contains(source_code, "onlyOwner") || str_contains(source_code, "onlyAdmin")
            || str_contains(source_code, "require(msg.sender == owner)")) {
            Some(
                make_finding(
                    "OWASP-SC01",
                    Severity::High,
                    "Dangerous function may lack proper access control",
                    8000,
                ),
            )
        } else {
            None
        }
    }

    /// Transaction-level check is not applicable.
    pub fn check_transaction(&self, contract_address: &str, tx_data: &str) -> (r: Option<
        RiskFinding,
    >)
        ensures
            r is None,
    {
        None
    }
}

// ============================================================================
// Arithmetic issues
// ============================================================================

/// Finding reported for source text using old Solidity without SafeMath, or
/// unchecked arithmetic blocks.
pub open spec fn arithmetic_source_spec(s: Seq<char>) -> Option<FindingView> {
    if contains_seq(s, "pragma solidity"@) && (contains_seq(s, "pragma solidity ^0.4."@)
        || contains_seq(s, "pragma solidity ^0.5."@) || contains_seq(s, "pragma solidity ^0.6."@)
        || contains_seq(s, "pragma solidity ^0.7."@)) && !(contains_seq(s, "SafeMath"@)
        || contains_seq(s, "using SafeMath"@)) {
        Some(FindingView {
            category: "OWASP-SC02"@,
            severity: Severity::High,
            description: "Using Solidity < 0.8 without SafeMath - vulnerable to integer overflow/underflow"@,
            location: None,
            confidence: 9000,
        })
    } else if contains_seq(s, "unchecked {"@) {
        Some(FindingView {
            category: "OWASP-SC02"@,
            severity: Severity::Medium,
            description: "Unchecked arithmetic block detected - verify safety"@,
            location: None,
            confidence: 7500,
        })
    } else {
        None
    }
}

/// Arithmetic rule.
pub struct ArithmeticRule;

impl ArithmeticRule {
    /// Rule name.
    pub fn name(&self) -> (r: String)
        ensures
            r@ == "ARITHMETIC"@,
    {
        String::from_str("ARITHMETIC")
    }

    /// Rule category.
    pub fn category(&self) -> (r: String)
        ensures
            r@ == "OWASP-SC02"@,
    {
        String::from_str("OWASP-SC02")
    }

    /// Bytecode-level arithmetic checks would require full EVM analysis.
    pub fn check_bytecode(&self, contract_address: &str, bytecode: &str) -> (r: Option<
        RiskFinding,
    >)
        ensures
            r is None,
    {
        None
    }

    /// Look for pre-0.8 Solidity without SafeMath, then unchecked blocks.
    pub fn check_source(&self, contract_address: &str, source_code: &str) -> (r: Option<
        RiskFinding,
    >)
        ensures
            finding_view_opt(r) == arithmetic_source_spec(source_code@),
            opt_finding_wf(r),
    {
        if str_contains(source_code, "pragma solidity") && (str_contains(
            source_code,
            "pragma solidity ^0.4.",
        ) || str_contains(source_code, "pragma solidity ^0.5.") || str_contains(
            source_code,
            "pragma solidity ^0.6.",
        ) || str_contains(source_code, "pragma solidity ^0.7.")) && !(str_contains(
            source_code,
            "SafeMath",
        ) || str_contains(source_code, "using SafeMath")) {
            Some(
                make_finding(
                    "OWASP-SC02",
                    Severity::High,
                    "Using Solidity < 0.8 without SafeMath - vulnerable to integer overflow/underflow",
                    9000,
                ),
            )
        } else if str_contains(source_code, "unchecked {") {
            Some(
                make_finding(
                    "OWASP-SC02",
                    Severity::Medium,
                    "Unchecked arithmetic block detected - verify safety",
                    7500,
                ),
            )
        } else {
            None
        }
    }

    /// Transaction-level check is not applicable.
    pub fn check_transaction(&self, contract_address: &str, tx_data: &str) -> (r: Option<
        RiskFinding,
    >)
        ensures
            r is None,
    {
        None
    }
}

// ============================================================================
// Delegatecall
// ============================================================================

/// Finding reported for bytecode holding the DELEGATECALL opcode pattern.
pub open spec fn delegatecall_bytecode_spec(b: Seq<char>) -> Option<FindingView> {
    if contains_seq(b, "f4"@) {
        Some(FindingView {
            category: "OWASP-SC03"@,
            severity: Severity::High,
            description: "Contract uses DELEGATECALL - verify implementation for proxy pattern safety"@,
            location: None,
            confidence: 8500,
        })
    } else {
        None
    }
}

/// Finding reported for source text naming delegatecall.
pub open spec fn delegatecall_source_spec(s: Seq<char>) -> Option<FindingView> {
    if contains_seq(s, "delegatecall"@) {
        Some(FindingView {
            category: "OWASP-SC03"@,
            severity: Severity::High,
            description: "DELEGATECALL usage detected - ensure proper access control"@,
            location: None,
            confidence: 9000,
        })
    } else {
        None
    }
}

/// Delegatecall rule.
pub struct DelegatecallRule;

impl DelegatecallRule {
    /// Rule name.
    pub fn name(&self) -> (r: String)
        ensures
            r@ == "DELEGATECALL"@,
    {
        String::from_str("DELEGATECALL")
    }

    /// Rule category.
    pub fn category(&self) -> (r: String)
        ensures
            r@ == "OWASP-SC03"@,
    {
        String::from_str("OWASP-SC03")
    }

    /// Look for the DELEGATECALL opcode pattern.
    pub fn check_bytecode(&self, contract_address: &str, bytecode: &str) -> (r: Option<
        RiskFinding,
    >)
        ensures
            finding_view_opt(r) == delegatecall_bytecode_spec(bytecode@),
            opt_finding_wf(r),
    {
        if str_contains(bytecode, "f4") {
            Some(
                make_finding(
                    "OWASP-SC03",
                    Severity::High,
                    "Contract uses DELEGATECALL - verify implementation for proxy pattern safety",
                    8500,
                ),
            )
        } else {
            None
        }
    }

    /// Look for delegatecall in source text.
    pub fn check_source(&self, contract_address: &str, source_code: &str) -> (r: Option<
        RiskFinding,
    >)
        ensures
            finding_view_opt(r) == delegatecall_source_spec(source_code@),
            opt_finding_wf(r),
    {
        if str_contains(source_code, "delegatecall") {
            Some(
                make_finding(
                    "OWASP-SC03",
                    Severity::High,
                    "DELEGATECALL usage detected - ensure proper access control",
                    9000,
                ),
            )
        } else {
            None
        }
    }

    /// Transaction-level check is not applicable.
    pub fn check_transaction(&self, contract_address: &str, tx_data: &str) -> (r: Option<
        RiskFinding,
    >)
        ensures
            r is None,
    {
        None
    }
}

// ============================================================================
// Oracle manipulation
// ============================================================================

/// Finding reported for source text naming a price oracle.
pub open spec fn oracle_source_spec(s: Seq<char>) -> Option<FindingView> {
    if contains_seq(s, "Chainlink"@) || contains_seq(s, "UniswapV2Oracle"@) || contains_seq(
        s,
        "getReserves"@,
    ) || contains_seq(s, "latestRoundData"@) || contains_seq(s, "price()"@) {
        Some(FindingView {
            category: "OWASP-SC04"@,
            severity: Severity::Medium,
            description: "Oracle usage detected - verify manipulation safeguards"@,
            location: None,
            confidence: 7000,
        })
    } else {
        None
    }
}

/// Oracle-manipulation rule.
pub struct OracleManipulationRule;

impl OracleManipulationRule {
    /// Rule name.
    pub fn name(&self) -> (r: String)
        ensures
            r@ == "ORACLE_MANIPULATION"@,
    {
        String::from_str("ORACLE_MANIPULATION")
    }

    /// Rule category.
    pub fn category(&self) -> (r: String)
        ensures
            r@ == "OWASP-SC04"@,
    {
        String::from_str("OWASP-SC04")
    }

    /// Bytecode-level check is not applicable.
    pub fn check_bytecode(&self, contract_address: &str, bytecode: &str) -> (r: Option<
        RiskFinding,
    >)
        ensures
            r is None,
    {
        None
    }

    /// Look for oracle usage markers.
    pub fn check_source(&self, contract_address: &str, source_code: &str) -> (r: Option<
        RiskFinding,
    >)
        ensures
            finding_view_opt(r) == oracle_source_spec(source_code@),
            opt_finding_wf(r),
    {
        if str_contains(source_code, "Chainlink") || str_contains(source_code, "UniswapV2Oracle")
            || str_contains(source_code, "getReserves") || str_contains(
            source_code,
            "latestRoundData",
        ) || str_contains(source_code, "price()") {
            Some(
                make_finding(
                    "OWASP-SC04",
                    Severity::Medium,
                    "Oracle usage detected - verify manipulation safeguards",
                    7000,
                ),
            )
        } else {
            None
        }
    }

    /// Transaction-level check is not applicable.
    pub fn check_transaction(&self, contract_address: &str, tx_data: &str) -> (r: Option<
        RiskFinding,
    >)
        ensures
            r is None,
    {
        None
    }
}

// ============================================================================
// Reentrancy
// ============================================================================

/// Finding reported for source text with an external call protected by
/// neither a reentrancy guard nor a checks-effects-interactions pattern.
pub open spec fn reentrancy_source_spec(s: Seq<char>) -> Option<FindingView> {
    if (contains_seq(s, ".call{value:"@) || contains_seq(s, ".transfer("@) || contains_seq(
        s,
        ".send("@,
    )) && !(contains_seq(s, "nonReentrant"@) || contains_seq(s, "ReentrancyGuard"@)) && !(
    contains_seq(s, "_balances[msg.sender] = 0"@) || contains_seq(s, "balances[msg.sender] -="@)) {
        Some(FindingView {
            category: "OWASP-SC05"@,
            severity: Severity::Critical,
            description: "Potential reentrancy vulnerability - external call without guard"@,
            location: None,
            confidence: 8000,
        })
    } else {
        None
    }
}

/// Reentrancy rule.
pub struct ReentrancyRule;

impl ReentrancyRule {
    /// Rule name.
    pub fn name(&self) -> (r: String)
        ensures
            r@ == "REENTRANCY"@,
    {
        String::from_str("REENTRANCY")
    }

    /// Rule category.
    pub fn category(&self) -> (r: String)
        ensures
            r@ == "OWASP-SC05"@,
    {
        String::from_str("OWASP-SC05")
    }

    /// Bytecode-level check is not applicable.
    pub fn check_bytecode(&self, contract_address: &str, bytecode: &str) -> (r: Option<
        RiskFinding,
    >)
        ensures
            r is None,
    {
        None
    }

    /// Look for unguarded external calls.
    pub fn check_source(&self, contract_address: &str, source_code: &str) -> (r: Option<
        RiskFinding,
    >)
        ensures
            finding_view_opt(r) == reentrancy_source_spec(source_code@),
            opt_finding_wf(r),
    {
        let has_external_call = str_contains(source_code, ".call{value:") || str_contains(
            source_code,
            ".transfer(",
        ) || str_contains(source_code, ".send(");
        let has_guard = str_contains(source_code, "nonReentrant") || str_contains(
            source_code,
            "ReentrancyGuard",
        );
        let has_cei_pattern = str_contains(source_code, "_balances[msg.sender] = 0")
            || str_contains(source_code, "balances[msg.sender] -=");
        if has_external_call && !has_guard && !has_cei_pattern {
            Some(
                make_finding(
                    "OWASP-SC05",
                    Severity::Critical,
                    "Potential reentrancy vulnerability - external call without guard",
                    8000,
                ),
            )
        } else {
            None
        }
    }

    /// Transaction-level check is not applicable.
    pub fn check_transaction(&self, contract_address: &str, tx_data: &str) -> (r: Option<
        RiskFinding,
    >)
        ensures
            r is None,
    {
        None
    }
}

// ============================================================================
// Unchecked calls
// ============================================================================

/// Finding reported for source text with a low-level call whose success is
/// never tested.
pub open spec fn unchecked_call_source_spec(s: Seq<char>) -> Option<FindingView> {
    if (contains_seq(s, ".call("@) || contains_seq(s, ".delegatecall("@)) && !(contains_seq(
        s,
        "require(success"@,
    ) || contains_seq(s, "if (!success"@)) {
        Some(FindingView {
            category: "OWASP-SC06"@,
            severity: Severity::Medium,
            description: "Low-level call may not check return value"@,
            location: None,
            confidence: 6000,
        })
    } else {
        None
    }
}

/// Unchecked-call rule.
pub struct UncheckedCallRule;

impl UncheckedCallRule {
    /// Rule name.
    pub fn name(&self) -> (r: String)
        ensures
            r@ == "UNCHECKED_CALL"@,
    {
        String::from_str("UNCHECKED_CALL")
    }

    /// Rule category.
    pub fn category(&self) -> (r: String)
        ensures
            r@ == "OWASP-SC06"@,
    {
        String::from_str("OWASP-SC06")
    }

    /// Bytecode-level check is not applicable.
    pub fn check_bytecode(&self, contract_address: &str, bytecode: &str) -> (r: Option<
        RiskFinding,
    >)
        ensures
            r is None,
    {
        None
    }

    /// Look for low-level calls whose result goes untested.
    pub fn check_source(&self, contract_address: &str, source_code: &str) -> (r: Option<
        RiskFinding,
    >)
        ensures
            finding_view_opt(r) == unchecked_call_source_spec(source_code@),
            opt_finding_wf(r),
    {
        if (str_contains(source_code, ".call(") || str_contains(source_code, ".delegatecall("))
            && !(str_contains(source_code, "require(success") || str_contains(
            source_code,
            "if (!success",
        )) {
            Some(
                make_finding(
                    "OWASP-SC06",
                    Severity::Medium,
                    "Low-level call may not check return value",
                    6000,
                ),
            )
        } else {
            None
        }
    }

    /// Transaction-level check is not applicable.
    pub fn check_transaction(&self, contract_address: &str, tx_data: &str) -> (r: Option<
        RiskFinding,
    >)
        ensures
            r is None,
    {
        None
    }
}

// ============================================================================
// Timestamp dependence
// ============================================================================

/// Finding reported for source text leaning on the block timestamp: severe
/// when combined with randomness or lottery logic, mild otherwise.
pub open spec fn timestamp_source_spec(s: Seq<char>) -> Option<FindingView> {
    if contains_seq(s, "block.timestamp"@) && (contains_seq(s, "random"@) || contains_seq(
        s,
        "lottery"@,
    )) {
        Some(FindingView {
            category: "OWASP-SC07"@,
            severity: Severity::High,
            description: "block.timestamp used in critical logic - miners can manipulate"@,
            location: None,
            confidence: 8500,
        })
    } else if contains_seq(s, "block.timestamp"@) || contains_seq(s, "now"@) {
        Some(FindingView {
            category: "OWASP-SC07"@,
            severity: Severity::Low,
            description: "block.timestamp usage detected - verify not used for randomness"@,
            location: None,
            confidence: 5000,
        })
    } else {
        None
    }
}

/// Timestamp-dependence rule.
pub struct TimestampDependenceRule;

impl TimestampDependenceRule {
    /// Rule name.
    pub fn name(&self) -> (r: String)
        ensures
            r@ == "TIMESTAMP_DEPENDENCE"@,
    {
        String::from_str("TIMESTAMP_DEPENDENCE")
    }

    /// Rule category.
    pub fn category(&self) -> (r: String)
        ensures
            r@ == "OWASP-SC07"@,
    {
        String::from_str("OWASP-SC07")
    }

    /// Bytecode-level check is not applicable.
    pub fn check_bytecode(&self, contract_address: &str, bytecode: &str) -> (r: Option<
        RiskFinding,
    >)
        ensures
            r is None,
    {
        None
    }

    /// Look for timestamp usage, graded by how it is used.
    pub fn check_source(&self, contract_address: &str, source_code: &str) -> (r: Option<
        RiskFinding,
    >)
        ensures
            finding_view_opt(r) == timestamp_source_spec(source_code@),
            opt_finding_wf(r),
    {
        if str_contains(source_code, "block.timestamp") && (str_contains(source_code, "random")
            || str_contains(source_code, "lottery")) {
            Some(
                make_finding(
                    "OWASP-SC07",
                    Severity::High,
                    "block.timestamp used in critical logic - miners can manipulate",
                    8500,
                ),
            )
        } else if str_contains(source_code, "block.timestamp") || str_contains(source_code, "now")
            {
            Some(
                make_finding(
                    "OWASP-SC07",
                    Severity::Low,
                    "block.timestamp usage detected - verify not used for randomness",
                    5000,
                ),
            )
        } else {
            None
        }
    }

    /// Transaction-level check is not applicable.
    pub fn check_transaction(&self, contract_address: &str, tx_data: &str) -> (r: Option<
        RiskFinding,
    >)
        ensures
            r is None,
    {
        None
    }
}

// ============================================================================
// tx.origin usage
// ============================================================================

/// Finding reported for source text using tx.origin: critical when it backs
/// an authorization decision, medium otherwise.
pub open spec fn tx_origin_source_spec(s: Seq<char>) -> Option<FindingView> {
    if contains_seq(s, "tx.origin"@) {
        if contains_seq(s, "tx.origin == owner"@) || contains_seq(s, "require(tx.origin"@) {
            Some(FindingView {
                category: "OWASP-SC08"@,
                severity: Severity::Critical,
                description: "tx.origin used for authorization - vulnerable to phishing attacks"@,
                location: None,
                confidence: 9500,
            })
        } else {
            Some(FindingView {
                category: "OWASP-SC08"@,
                severity: Severity::Medium,
                description: "tx.origin usage detected - prefer msg.sender"@,
                location: None,
                confidence: 8000,
            })
        }
    } else {
        None
    }
}

/// tx.origin rule.
pub struct TxOriginRule;

impl TxOriginRule {
    /// Rule name.
    pub fn name(&self) -> (r: String)
        ensures
            r@ == "TX_ORIGIN"@,
    {
        String::from_str("TX_ORIGIN")
    }

    /// Rule category.
    pub fn category(&self) -> (r: String)
        ensures
            r@ == "OWASP-SC08"@,
    {
        String::from_str("OWASP-SC08")
    }

    /// Bytecode-level check is not applicable.
    pub fn check_bytecode(&self, contract_address: &str, bytecode: &str) -> (r: Option<
        RiskFinding,
    >)
        ensures
            r is None,
    {
        None
    }

    /// Look for tx.origin, graded by whether it backs authorization.
    pub fn check_source(&self, contract_address: &str, source_code: &str) -> (r: Option<
        RiskFinding,
    >)
        ensures
            finding_view_opt(r) == tx_origin_source_spec(source_code@),
            opt_finding_wf(r),
    {
        if str_contains(source_code, "tx.origin") {
            if str_contains(source_code, "tx.origin == owner") || str_contains(
                source_code,
                "require(tx.origin",
            ) {
                Some(
                    make_finding(
                        "OWASP-SC08",
                        Severity::Critical,
                        "tx.origin used for authorization - vulnerable to phishing attacks",
                        9500,
                    ),
                )
            } else {
                Some(
                    make_finding(
                        "OWASP-SC08",
                        Severity::Medium,
                        "tx.origin usage detected - prefer msg.sender",
                        8000,
                    ),
                )
            }
        } else {
            None
        }
    }

    /// Transaction-level check is not applicable.
    pub fn check_transaction(&self, contract_address: &str, tx_data: &str) -> (r: Option<
        RiskFinding,
    >)
        ensures
            r is None,
    {
        None
    }
}

// ============================================================================
// Flash loan attacks
// ============================================================================

/// Finding reported for source text naming flash-loan machinery.
pub open spec fn flash_loan_source_spec(s: Seq<char>) -> Option<FindingView> {
    if contains_seq(s, "flashLoan"@) || contains_seq(s, "FlashLoan"@) || contains_seq(
        s,
        "flash loan"@,
    ) || contains_seq(s, "Aave"@) || contains_seq(s, "Balancer"@) || contains_seq(
        s,
        "UniswapV2Pair"@,
    ) || contains_seq(s, "swap"@) {
        Some(FindingView {
            category: "OWASP-SC09"@,
            severity: Severity::Medium,
            description: "Flash loan related code detected - verify price manipulation safeguards"@,
            location: None,
            confidence: 6000,
        })
    } else {
        None
    }
}

/// Flash-loan rule.
pub struct FlashLoanRule;

impl FlashLoanRule {
    /// Rule name.
    pub fn name(&self) -> (r: String)
        ensures
            r@ == "FLASH_LOAN"@,
    {
        String::from_str("FLASH_LOAN")
    }

    /// Rule category.
    pub fn category(&self) -> (r: String)
        ensures
            r@ == "OWASP-SC09"@,
    {
        String::from_str("OWASP-SC09")
    }

    /// Bytecode-level check is not applicable.
    pub fn check_bytecode(&self, contract_address: &str, bytecode: &str) -> (r: Option<
        RiskFinding,
    >)
        ensures
            r is None,
    {
        None
    }

    /// Look for flash-loan related markers.
    pub fn check_source(&self, contract_address: &str, source_code: &str) -> (r: Option<
        RiskFinding,
    >)
        ensures
            finding_view_opt(r) == flash_loan_source_spec(source_code@),
            opt_finding_wf(r),
    {
        if str_contains(source_code, "flashLoan") || str_contains(source_code, "FlashLoan")
            || str_contains(source_code, "flash loan") || str_contains(source_code, "Aave")
            || str_contains(source_code, "Balancer") || str_contains(source_code, "UniswapV2Pair")
            || str_contains(source_code, "swap") {
            Some(
                make_finding(
                    "OWASP-SC09",
                    Severity::Medium,
                    "Flash loan related code detected - verify price manipulation safeguards",
                    6000,
                ),
            )
        } else {
            None
        }
    }

    /// Transaction-level check is not applicable.
    pub fn check_transaction(&self, contract_address: &str, tx_data: &str) -> (r: Option<
        RiskFinding,
    >)
        ensures
            r is None,
    {
        None
    }
}

// ============================================================================
// Input validation
// ============================================================================

/// Finding reported for source text that shows no input-validation idiom at
/// all.
pub open spec fn input_validation_source_spec(s: Seq<char>) -> Option<FindingView> {
    if !contains_seq(s, "require("@) && !contains_seq(s, "assert("@) && !contains_seq(
        s,
        "error "@,
    ) {
        Some(FindingView {
            category: "OWASP-SC10"@,
            severity: Severity::Medium,
            description: "Limited input validation detected - consider adding require statements"@,
            location: None,
            confidence: 5000,
        })
    } else {
        None
    }
}

/// Input-validation rule.
pub struct InputValidationRule;

impl InputValidationRule {
    /// Rule name.
    pub fn name(&self) -> (r: String)
        ensures
            r@ == "INPUT_VALIDATION"@,
    {
        String::from_str("INPUT_VALIDATION")
    }

    /// Rule category.
    pub fn category(&self) -> (r: String)
        ensures
            r@ == "OWASP-SC10"@,
    {
        String::from_str("OWASP-SC10")
    }

    /// Bytecode-level check is not applicable.
    pub fn check_bytecode(&self, contract_address: &str, bytecode: &str) -> (r: Option<
        RiskFinding,
    >)
        ensures
            r is None,
    {
        None
    }

    /// Report source text with no validation idiom.
    pub fn check_source(&self, contract_address: &str, source_code: &str) -> (r: Option<
        RiskFinding,
    >)
        ensures
            finding_view_opt(r) == input_validation_source_spec(source_code@),
            opt_finding_wf(r),
    {
        let has_require = str_contains(source_code, "require(");
        let has_assert = str_contains(source_code, "assert(");
        let has_custom_error = str_contains(source_code, "error ");
        if !has_require && !has_assert && !has_custom_error {
            Some(
                make_finding(
                    "OWASP-SC10",
                    Severity::Medium,
                    "Limited input validation detected - consider adding require statements",
                    5000,
                ),
            )
        } else {
            None
        }
    }

    /// Transaction-level check is not applicable.
    pub fn check_transaction(&self, contract_address: &str, tx_data: &str) -> (r: Option<
        RiskFinding,
    >)
        ensures
            r is None,
    {
        None
    }
}

} // verus!
