//! Scanner: runs the scanning rules that the configuration enables, in a
//! fixed order, and collects their findings.

use vstd::prelude::*;
use crate::models::{
    FindingView, RiskFinding, finding_view_opt, findings_view, findings_wf, opt_finding_wf,
};
use crate::rules::{
    AccessControlRule, ArithmeticRule, DelegatecallRule, FlashLoanRule, InputValidationRule,
    OracleManipulationRule, ReentrancyRule, TimestampDependenceRule, TxOriginRule,
    UncheckedCallRule, access_control_bytecode_spec, access_control_source_spec,
    arithmetic_source_spec, delegatecall_bytecode_spec, delegatecall_source_spec,
    flash_loan_source_spec, input_validation_source_spec, oracle_source_spec,
    reentrancy_source_spec, timestamp_source_spec, tx_origin_source_spec,
    unchecked_call_source_spec,
};
use crate::strutil::{lower_of, str_eq};

verus! {

/// Scanner configuration.
#[derive(Clone, Debug)]
pub struct ScannerConfig {
    /// Enable all rules by default.
    pub enable_all: bool,
    /// Specific rules to enable when not all are.
    pub enabled_rules: Vec<String>,
    /// Rules to disable in any case.
    pub disabled_rules: Vec<String>,
    /// Timeout budget for scanning, in milliseconds; documented as a
    /// constraint on the caller, not enforced here.
    pub timeout_ms: u64,
}

impl Default for ScannerConfig {
    /// All rules enabled, three second budget.
    fn default() -> (r: ScannerConfig)
        ensures
            r.enable_all == true,
            r.enabled_rules@.len() == 0,
            r.disabled_rules@.len() == 0,
            r.timeout_ms == 3000,
    {
        ScannerConfig {
            enable_all: true,
            enabled_rules: Vec::new(),
            disabled_rules: Vec::new(),
            timeout_ms: 3000,
        }
    }
}

/// One of the names in the list reads as `name`.
pub open spec fn names_contain(names: Seq<String>, name: Seq<char>) -> bool {
    exists|i: int| 0 <= i < names.len() && names[i]@ == name
}

/// The rule called `name` runs under this configuration: it is enabled by
/// default or by the enable list, and not disabled.
pub open spec fn rule_enabled_spec(
    enable_all: bool,
    enabled: Seq<String>,
    disabled: Seq<String>,
    name: Seq<char>,
) -> bool {
    (enable_all || names_contain(enabled, name)) && !names_contain(disabled, name)
}

/// The findings of one rule, as a sequence of zero or one entries.
pub open spec fn opt_seq(o: Option<FindingView>) -> Seq<FindingView> {
    match o {
        Some(f) => seq![f],
        None => Seq::empty(),
    }
}

/// The images of a sequence of strings.
pub open spec fn strings_view(s: Seq<String>) -> Seq<Seq<char>> {
    s.map_values(|x: String| x@)
}

/// One rule's name, listed when the rule is enabled.
pub open spec fn name_seq(enabled: bool, name: Seq<char>) -> Seq<Seq<char>> {
    if enabled {
        seq![name]
    } else {
        Seq::empty()
    }
}

/// Findings of a bytecode scan under the given configuration, in rule
/// order.  Only the access-control and delegatecall rules inspect bytecode;
/// the other eight always report nothing there.
pub open spec fn scan_bytecode_spec(
    enable_all: bool,
    enabled: Seq<String>,
    disabled: Seq<String>,
    bytecode: Seq<char>,
) -> Seq<FindingView> {
    opt_seq(
        if rule_enabled_spec(enable_all, enabled, disabled, "ACCESS_CONTROL"@) {
            access_control_bytecode_spec(lower_of(bytecode))
        } else {
            None
        },
    ) + opt_seq(
        if rule_enabled_spec(enable_all, enabled, disabled, "DELEGATECALL"@) {
            delegatecall_bytecode_spec(bytecode)
        } else {
            None
        },
    )
}

/// Findings of a source scan under the given configuration, in rule order.
pub open spec fn scan_source_spec(
    enable_all: bool,
    enabled: Seq<String>,
    disabled: Seq<String>,
    source: Seq<char>,
) -> Seq<FindingView> {
    opt_seq(
        if rule_enabled_spec(enable_all, enabled, disabled, "ACCESS_CONTROL"@) {
            access_control_source_spec(source)
        } else {
            None
        },
    ) + opt_seq(
        if rule_enabled_spec(enable_all, enabled, disabled, "ARITHMETIC"@) {
            arithmetic_source_spec(source)
        } else {
            None
        },
    ) + opt_seq(
        if rule_enabled_spec(enable_all, enabled, disabled, "DELEGATECALL"@) {
            delegatecall_source_spec(source)
        } else {
            None
        },
    ) + opt_seq(
        if rule_enabled_spec(enable_all, enabled, disabled, "ORACLE_MANIPULATION"@) {
            oracle_source_spec(source)
        } else {
            None
        },
    ) + opt_seq(
        if rule_enabled_spec(enable_all, enabled, disabled, "REENTRANCY"@) {
            reentrancy_source_spec(source)
        } else {
            None
        },
    ) + opt_seq(
        if rule_enabled_spec(enable_all, enabled, disabled, "UNCHECKED_CALL"@) {
            unchecked_call_source_spec(source)
        } else {
            None
        },
    ) + opt_seq(
        if rule_enabled_spec(enable_all, enabled, disabled, "TIMESTAMP_DEPENDENCE"@) {
            timestamp_source_spec(source)
        } else {
            None
        },
    ) + opt_seq(
        if rule_enabled_spec(enable_all, enabled, disabled, "TX_ORIGIN"@) {
            tx_origin_source_spec(source)
        } else {
            None
        },
    ) + opt_seq(
        if rule_enabled_spec(enable_all, enabled, disabled, "FLASH_LOAN"@) {
            flash_loan_source_spec(source)
        } else {
            None
        },
    ) + opt_seq(
        if rule_enabled_spec(enable_all, enabled, disabled, "INPUT_VALIDATION"@) {
            input_validation_source_spec(source)
        } else {
            None
        },
    )
}

/// One of the names of the list reads as `name`.
fn contains_name(names: &Vec<String>, name: &str) -> (r: bool)
    ensures
        r == names_contain(names@, name@),
{
    let mut i: usize = 0;
    while i < names.len()
        invariant
            i <= names@.len(),
            forall|k: int| 0 <= k < i ==> (#[trigger] names@[k])@ != name@,
        decreases names@.len() - i,
    {
        if str_eq(names[i].as_str(), name) {
            assert(names@[i as int]@ == name@);
            return true;
        }
        i = i + 1;
    }
    false
}

/// Smart-contract scanner over the fixed rule set.
pub struct OwaspScanner {
    config: ScannerConfig,
}

impl OwaspScanner {
    /// The configuration the scanner was built with.
    pub closed spec fn spec_config(self) -> ScannerConfig {
        self.config
    }

    /// The rule called `name` runs under this scanner's configuration.
    pub open spec fn rule_enabled(self, name: Seq<char>) -> bool {
        rule_enabled_spec(
            self.spec_config().enable_all,
            self.spec_config().enabled_rules@,
            self.spec_config().disabled_rules@,
            name,
        )
    }

    /// The scanner runs every rule: all enabled, none disabled.
    pub open spec fn runs_all_rules(self) -> bool {
        self.spec_config().enable_all && self.spec_config().disabled_rules@.len() == 0
    }

    /// Create a scanner with the default configuration.
    pub fn new() -> (r: OwaspScanner)
        ensures
            r.runs_all_rules(),
            r.spec_config().enabled_rules@.len() == 0,
            r.spec_config().timeout_ms == 3000,
    {
        OwaspScanner { config: ScannerConfig::default() }
    }

    /// Create a scanner with a custom configuration.
    pub fn with_config(config: ScannerConfig) -> (r: OwaspScanner)
        ensures
            r.spec_config().enable_all == config.enable_all,
            r.spec_config().enabled_rules@ == config.enabled_rules@,
            r.spec_config().disabled_rules@ == config.disabled_rules@,
            r.spec_config().timeout_ms == config.timeout_ms,
    {
        OwaspScanner { config }
    }

    /// The rule called `name` runs under this scanner's configuration.
    fn is_enabled(&self, name: &str) -> (r: bool)
        ensures
            r == self.rule_enabled(name@),
    {
        (self.config.enable_all || contains_name(&self.config.enabled_rules, name))
            && !contains_name(&self.config.disabled_rules, name)
    }

    /// Scan contract bytecode with every enabled rule, in rule order.
    pub fn scan_bytecode(&self, contract_address: &str, bytecode: &str) -> (r: Vec<RiskFinding>)
        ensures
            findings_view(r@) == scan_bytecode_spec(
                self.spec_config().enable_all,
                self.spec_config().enabled_rules@,
                self.spec_config().disabled_rules@,
                bytecode@,
            ),
            findings_wf(r@),
    {
        let mut findings: Vec<RiskFinding> = Vec::new();
        push_opt(
            &mut findings,
            if self.is_enabled("ACCESS_CONTROL") {
                (AccessControlRule).check_bytecode(contract_address, bytecode)
            } else {
                None
            },
        );
        push_opt(
            &mut findings,
            if self.is_enabled("DELEGATECALL") {
                (DelegatecallRule).check_bytecode(contract_address, bytecode)
            } else {
                None
            },
        );
        findings
    }

    /// Scan contract source text with every enabled rule, in rule order.
    pub fn scan_source(&self, contract_address: &str, source_code: &str) -> (r: Vec<RiskFinding>)
        ensures
            findings_view(r@) == scan_source_spec(
                self.spec_config().enable_all,
                self.spec_config().enabled_rules@,
                self.spec_config().disabled_rules@,
                source_code@,
            ),
            findings_wf(r@),
    {
        let mut findings: Vec<RiskFinding> = Vec::new();
        push_opt(
            &mut findings,
            if self.is_enabled("ACCESS_CONTROL") {
                (AccessControlRule).check_source(contract_address, source_code)
            } else {
                None
            },
        );
        push_opt(
            &mut findings,
            if self.is_enabled("ARITHMETIC") {
                (ArithmeticRule).check_source(contract_address, source_code)
            } else {
                None
            },
        );
        push_opt(
            &mut findings,
            if self.is_enabled("DELEGATECALL") {
                (DelegatecallRule).check_source(contract_address, source_code)
            } else {
                None
            },
        );
        push_opt(
            &mut findings,
            if self.is_enabled("ORACLE_MANIPULATION") {
                (OracleManipulationRule).check_source(contract_address, source_code)
            } else {
                None
            },
        );
        push_opt(
            &mut findings,
            if self.is_enabled("REENTRANCY") {
                (ReentrancyRule).check_source(contract_address, source_code)
            } else {
                None
            },
        );
        push_opt(
            &mut findings,
            if self.is_enabled("UNCHECKED_CALL") {
                (UncheckedCallRule).check_source(contract_address, source_code)
            } else {
                None
            },
        );
        push_opt(
            &mut findings,
            if self.is_enabled("TIMESTAMP_DEPENDENCE") {
                (TimestampDependenceRule).check_source(contract_address, source_code)
            } else {
                None
            },
        );
        push_opt(
            &mut findings,
            if self.is_enabled("TX_ORIGIN") {
                (TxOriginRule).check_source(contract_address, source_code)
            } else {
                None
            },
        );
        push_opt(
            &mut findings,
            if self.is_enabled("FLASH_LOAN") {
                (FlashLoanRule).check_source(contract_address, source_code)
            } else {
                None
            },
        );
        push_opt(
            &mut findings,
            if self.is_enabled("INPUT_VALIDATION") {
                (InputValidationRule).check_source(contract_address, source_code)
            } else {
                None
            },
        );
        findings
    }

    /// Scan transaction data.  No rule implements a transaction-level check,
    /// so the scan reports nothing.
    pub fn scan_transaction(&self, contract_address: &str, tx_data: &str) -> (r: Vec<RiskFinding>)
        ensures
            r@.len() == 0,
    {
        let mut findings: Vec<RiskFinding> = Vec::new();
        push_opt(
            &mut findings,
            if self.is_enabled("ACCESS_CONTROL") {
                (AccessControlRule).check_transaction(contract_address, tx_data)
            } else {
                None
            },
        );
        push_opt(
            &mut findings,
            if self.is_enabled("DELEGATECALL") {
                (DelegatecallRule).check_transaction(contract_address, tx_data)
            } else {
                None
            },
        );
        findings
    }

    /// Names of the rules this scanner runs, in rule order.
    pub open spec fn available_rules_spec(self) -> Seq<Seq<char>> {
        name_seq(self.rule_enabled("ACCESS_CONTROL"@), "ACCESS_CONTROL"@) + name_seq(
            self.rule_enabled("ARITHMETIC"@),
            "ARITHMETIC"@,
        ) + name_seq(self.rule_enabled("DELEGATECALL"@), "DELEGATECALL"@) + name_seq(
            self.rule_enabled("ORACLE_MANIPULATION"@),
            "ORACLE_MANIPULATION"@,
        ) + name_seq(self.rule_enabled("REENTRANCY"@), "REENTRANCY"@) + name_seq(
            self.rule_enabled("UNCHECKED_CALL"@),
            "UNCHECKED_CALL"@,
        ) + name_seq(
            self.rule_enabled("TIMESTAMP_DEPENDENCE"@),
            "TIMESTAMP_DEPENDENCE"@,
        ) + name_seq(self.rule_enabled("TX_ORIGIN"@), "TX_ORIGIN"@) + name_seq(
            self.rule_enabled("FLASH_LOAN"@),
            "FLASH_LOAN"@,
        ) + name_seq(self.rule_enabled("INPUT_VALIDATION"@), "INPUT_VALIDATION"@)
    }

    /// Names of the enabled rules, in rule order.
    pub fn available_rules(&self) -> (r: Vec<String>)
        ensures
            strings_view(r@) == self.available_rules_spec(),
    {
        let mut names: Vec<String> = Vec::new();
        push_if(&mut names, self.is_enabled("ACCESS_CONTROL"), (AccessControlRule).name());
        push_if(&mut names, self.is_enabled("ARITHMETIC"), (ArithmeticRule).name());
        push_if(&mut names, self.is_enabled("DELEGATECALL"), (DelegatecallRule).name());
        push_if(
            &mut names,
            self.is_enabled("ORACLE_MANIPULATION"),
            (OracleManipulationRule).name(),
        );
        push_if(&mut names, self.is_enabled("REENTRANCY"), (ReentrancyRule).name());
        push_if(&mut names, self.is_enabled("UNCHECKED_CALL"), (UncheckedCallRule).name());
        push_if(
            &mut names,
            self.is_enabled("TIMESTAMP_DEPENDENCE"),
            (TimestampDependenceRule).name(),
        );
        push_if(&mut names, self.is_enabled("TX_ORIGIN"), (TxOriginRule).name());
        push_if(&mut names, self.is_enabled("FLASH_LOAN"), (FlashLoanRule).name());
        push_if(&mut names, self.is_enabled("INPUT_VALIDATION"), (InputValidationRule).name());
        names
    }
}

/// Append the rule's name when the rule is enabled.
fn push_if(names: &mut Vec<String>, enabled: bool, name: String)
    ensures
        strings_view(final(names)@) == strings_view(old(names)@) + name_seq(enabled, name@),
{
    if enabled {
        names.push(name);
        proof {
            assert(strings_view(names@) =~= strings_view(old(names)@) + name_seq(true, name@));
        }
    } else {
        proof {
            assert(strings_view(names@) =~= strings_view(old(names)@) + name_seq(false, name@));
        }
    }
}

/// Append the finding of one rule, if it reported one.
fn push_opt(findings: &mut Vec<RiskFinding>, f: Option<RiskFinding>)
    requires
        findings_wf(old(findings)@),
        opt_finding_wf(f),
    ensures
        findings_view(final(findings)@) == findings_view(old(findings)@) + opt_seq(
            finding_view_opt(f),
        ),
        findings_wf(final(findings)@),
{
    match f {
        Some(x) => {
            findings.push(x);
            proof {
                assert(findings_view(findings@) =~= findings_view(old(findings)@) + opt_seq(
                    finding_view_opt(Some(x)),
                ));
                assert(forall|i: int|
                    0 <= i < findings@.len() ==> (#[trigger] findings@[i]).wf()) by {
                    assert(forall|i: int|
                        0 <= i < old(findings)@.len() ==> findings@[i] == old(findings)@[i]);
                };
            }
        },
        None => {
            proof {
                assert(findings_view(findings@) =~= findings_view(old(findings)@) + opt_seq(
                    finding_view_opt(f),
                ));
            }
        },
    }
}

} // verus!
