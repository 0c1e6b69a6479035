//! The rule updater: what may be sent to the firewall service, what is sent,
//! and what the service's answer means.

use crate::matcher::{match_pattern, regex_match};
use vstd::prelude::*;
use vstd::string::StringExecFns;

verus! {

/// The expression a rule name has to match.
pub const RULE_NAME_PATTERN: &'static str = "^[a-zA-Z0-9_-]+$";

/// The expression an address has to match: four groups of one to three
/// digits, separated by dots. It does not bound a group by 255, and a digit
/// is whatever the `regex` crate takes `\d` to be.
pub const ADDRESS_PATTERN: &'static str = "^\\d{1,3}(\\.\\d{1,3}){3}$";

/// The suffix that turns an address into the range holding only that address.
pub const HOST_SUFFIX: &'static str = "/32";

/// Why a rule was not updated.
#[derive(Debug, Clone, PartialEq, Eq)]
pub enum UpdateError {
    /// The rule name does not match [`RULE_NAME_PATTERN`].
    InvalidRuleName,
    /// The address does not match [`ADDRESS_PATTERN`].
    InvalidAddress,
    /// The firewall service did not acknowledge the update; the text is its
    /// diagnostic.
    ExternalUpdateFailed(String),
}

/// The mathematical value of an [`UpdateError`].
pub enum UpdateFailure {
    InvalidRuleName,
    InvalidAddress,
    ExternalUpdateFailed(Seq<char>),
}

impl View for UpdateError {
    type V = UpdateFailure;

    open spec fn view(&self) -> UpdateFailure {
        match self {
            UpdateError::InvalidRuleName => UpdateFailure::InvalidRuleName,
            UpdateError::InvalidAddress => UpdateFailure::InvalidAddress,
            UpdateError::ExternalUpdateFailed(text) => UpdateFailure::ExternalUpdateFailed(text@),
        }
    }
}

/// One update for the firewall service: the named rule is to allow traffic
/// from exactly the listed source ranges, which replace any it had.
#[derive(Debug, Clone, PartialEq, Eq)]
pub struct UpdateRequest {
    pub rule_name: String,
    pub source_ranges: Vec<String>,
}

/// The mathematical value of an [`UpdateRequest`].
pub struct UpdateOrder {
    pub rule_name: Seq<char>,
    pub source_ranges: Seq<Seq<char>>,
}

impl View for UpdateRequest {
    type V = UpdateOrder;

    open spec fn view(&self) -> UpdateOrder {
        UpdateOrder {
            rule_name: self.rule_name@,
            source_ranges: self.source_ranges.deep_view(),
        }
    }
}

/// The value of a planned update or of the reason there is none.
pub open spec fn plan_view(plan: Result<UpdateRequest, UpdateError>) -> Result<
    UpdateOrder,
    UpdateFailure,
> {
    match plan {
        Ok(request) => Ok(request@),
        Err(error) => Err(error@),
    }
}

/// Whether `name` may name a rule: it matches [`RULE_NAME_PATTERN`].
pub open spec fn valid_rule_name(name: Seq<char>) -> bool {
    regex_match(RULE_NAME_PATTERN@, name) == Some(true)
}

/// Whether `ip` may be sent as an address: it matches [`ADDRESS_PATTERN`].
pub open spec fn valid_address(ip: Seq<char>) -> bool {
    regex_match(ADDRESS_PATTERN@, ip) == Some(true)
}

/// The range that holds `ip` and nothing else.
pub open spec fn host_range(ip: Seq<char>) -> Seq<char> {
    ip + HOST_SUFFIX@
}

/// What is decided for a rule once both checks are known: an invalid name is
/// reported first, then an invalid address; otherwise the update sets the
/// rule's source ranges to the single range of `ip`.
pub open spec fn decide(name_ok: bool, address_ok: bool, rule_name: Seq<char>, ip: Seq<char>)
    -> Result<UpdateOrder, UpdateFailure> {
    if !name_ok {
        Err(UpdateFailure::InvalidRuleName)
    } else if !address_ok {
        Err(UpdateFailure::InvalidAddress)
    } else {
        Ok(UpdateOrder { rule_name, source_ranges: seq![host_range(ip)] })
    }
}

/// What is decided for `rule_name` and `ip`.
pub open spec fn planned(rule_name: Seq<char>, ip: Seq<char>) -> Result<
    UpdateOrder,
    UpdateFailure,
> {
    decide(valid_rule_name(rule_name), valid_address(ip), rule_name, ip)
}

/// Tells whether `name` matches [`RULE_NAME_PATTERN`].
pub fn is_valid_rule_name(name: &str) -> (ok: bool)
    ensures
        ok == valid_rule_name(name@),
{
    match match_pattern(RULE_NAME_PATTERN, name) {
        Some(found) => found,
        None => false,
    }
}

/// Tells whether `ip` matches [`ADDRESS_PATTERN`].
pub fn is_valid_address(ip: &str) -> (ok: bool)
    ensures
        ok == valid_address(ip@),
{
    match match_pattern(ADDRESS_PATTERN, ip) {
        Some(found) => found,
        None => false,
    }
}

/// Writes `ip` as the range of that one address: `ip` followed by `/32`.
pub fn host_cidr(ip: &str) -> (cidr: String)
    ensures
        cidr@ == host_range(ip@),
{
    let mut cidr = ip.to_owned();
    cidr.append(HOST_SUFFIX);
    cidr
}

/// Decides what to do for `rule_name` from the outcome of the two checks.
/// With either check failed nothing is to be sent.
pub fn build_request(name_ok: bool, address_ok: bool, rule_name: &str, new_ip: &str) -> (plan:
    Result<UpdateRequest, UpdateError>)
    ensures
        plan_view(plan) == decide(name_ok, address_ok, rule_name@, new_ip@),
{
    if !name_ok {
        Err(UpdateError::InvalidRuleName)
    } else if !address_ok {
        Err(UpdateError::InvalidAddress)
    } else {
        let mut source_ranges: Vec<String> = Vec::new();
        source_ranges.push(host_cidr(new_ip));
        let request = UpdateRequest { rule_name: rule_name.to_owned(), source_ranges };
        assert(request.source_ranges.deep_view() =~= seq![host_range(new_ip@)]);
        Ok(request)
    }
}

/// Checks `rule_name` and `new_ip` and, when both pass, gives the update to
/// send: the rule's source ranges become the single range of `new_ip`.
pub fn plan_update(rule_name: &str, new_ip: &str) -> (plan: Result<UpdateRequest, UpdateError>)
    ensures
        plan_view(plan) == planned(rule_name@, new_ip@),
        !valid_rule_name(rule_name@) ==> plan matches Err(UpdateError::InvalidRuleName),
        valid_rule_name(rule_name@) && !valid_address(new_ip@) ==> plan matches Err(
            UpdateError::InvalidAddress,
        ),
        valid_rule_name(rule_name@) && valid_address(new_ip@) ==> plan is Ok,
{
    if !is_valid_rule_name(rule_name) {
        build_request(false, false, rule_name, new_ip)
    } else {
        build_request(true, is_valid_address(new_ip), rule_name, new_ip)
    }
}

/// A rule name that does not match its pattern is refused as an invalid rule
/// name, whatever the address is, and no update is planned for it.
pub proof fn lemma_invalid_rule_name_is_refused(rule_name: Seq<char>, ip: Seq<char>)
    requires
        !valid_rule_name(rule_name),
    ensures
        planned(rule_name, ip) == Err::<UpdateOrder, UpdateFailure>(UpdateFailure::InvalidRuleName),
{
}

/// For a rule name that passes, an address that does not match its pattern is
/// refused as an invalid address, and no update is planned for it. (With a
/// rule name that does not pass either, the rule name is what is reported.)
pub proof fn lemma_invalid_address_is_refused(rule_name: Seq<char>, ip: Seq<char>)
    requires
        valid_rule_name(rule_name),
        !valid_address(ip),
    ensures
        planned(rule_name, ip) == Err::<UpdateOrder, UpdateFailure>(UpdateFailure::InvalidAddress),
{
}

/// An update is planned only for a rule name and an address that both pass,
/// and then it names that rule and lists the single range of that address.
pub proof fn lemma_planned_update(rule_name: Seq<char>, ip: Seq<char>)
    ensures
        planned(rule_name, ip) is Ok <==> valid_rule_name(rule_name) && valid_address(ip),
        planned(rule_name, ip) is Ok ==> planned(rule_name, ip)->Ok_0 == (UpdateOrder {
            rule_name,
            source_ranges: seq![host_range(ip)],
        }),
{
}

/// Reads the firewall service's answer: an acknowledgment is success, and
/// anything else is a failure that carries the service's diagnostic.
pub fn conclude_update(outcome: Result<(), String>) -> (result: Result<(), UpdateError>)
    ensures
        match outcome {
            Ok(_) => result is Ok,
            Err(text) => result matches Err(error) && error@
                == UpdateFailure::ExternalUpdateFailed(text@),
        },
{
    match outcome {
        Ok(_) => Ok(()),
        Err(text) => Err(UpdateError::ExternalUpdateFailed(text)),
    }
}

} // verus!
