//! Change tracking: the last address applied and the one before it.

use vstd::prelude::*;

verus! {

/// The two addresses the updater remembers, as text.
#[derive(Debug, Clone, PartialEq, Eq)]
pub struct IpAddresses {
    /// The address that was current before the last change.
    pub previous_ip: Option<String>,
    /// The address most recently seen to differ from its predecessor.
    pub current_ip: Option<String>,
}

/// The mathematical value of an [`IpAddresses`].
pub struct AddressRecord {
    pub previous: Option<Seq<char>>,
    pub current: Option<Seq<char>>,
}

/// The characters of an optional string.
pub open spec fn text_of(s: Option<String>) -> Option<Seq<char>> {
    match s {
        Some(t) => Some(t@),
        None => None,
    }
}

impl View for IpAddresses {
    type V = AddressRecord;

    open spec fn view(&self) -> AddressRecord {
        AddressRecord { previous: text_of(self.previous_ip), current: text_of(self.current_ip) }
    }
}

impl AddressRecord {
    /// The record before any address has been resolved.
    pub open spec fn empty() -> AddressRecord {
        AddressRecord { previous: None, current: None }
    }

    /// Whether `ip` is a change with respect to this record.
    pub open spec fn differs_from(self, ip: Seq<char>) -> bool {
        self.current != Some(ip)
    }

    /// The record after `ip` has been observed: unchanged when `ip` is the
    /// current address, otherwise the current address moves to `previous`
    /// and `ip` becomes current.
    pub open spec fn observe(self, ip: Seq<char>) -> AddressRecord {
        if self.differs_from(ip) {
            AddressRecord { previous: self.current, current: Some(ip) }
        } else {
            self
        }
    }

    /// A record is consistent when it has no previous address without a
    /// current one, and the two are never the same address.
    pub open spec fn consistent(self) -> bool {
        match self.previous {
            Some(p) => self.current is Some && self.current != Some(p),
            None => true,
        }
    }
}

impl IpAddresses {
    /// A record that remembers nothing yet.
    pub fn new() -> (record: IpAddresses)
        ensures
            record@ == AddressRecord::empty(),
    {
        IpAddresses { previous_ip: None, current_ip: None }
    }

    /// A copy of the record as it stands.
    pub fn snapshot(&self) -> (copy: IpAddresses)
        ensures
            copy@ == self@,
    {
        let previous_ip = match &self.previous_ip {
            Some(ip) => Some(ip.clone()),
            None => None,
        };
        let current_ip = match &self.current_ip {
            Some(ip) => Some(ip.clone()),
            None => None,
        };
        IpAddresses { previous_ip, current_ip }
    }
}

/// Compares the freshly resolved `ip` with the current address of `ip_data`.
/// When they differ (or there is no current address yet) the current address
/// becomes the previous one, `ip` becomes current, and the result is `true`.
/// Otherwise the record is left as it was and the result is `false`.
pub fn check_ip_changed(ip: &str, ip_data: &mut IpAddresses) -> (changed: bool)
    ensures
        changed == old(ip_data)@.differs_from(ip@),
        final(ip_data)@ == old(ip_data)@.observe(ip@),
{
    let candidate = ip.to_owned();
    let same = match &ip_data.current_ip {
        Some(current) => *current == candidate,
        None => false,
    };
    if same {
        false
    } else {
        ip_data.previous_ip = ip_data.current_ip.take();
        ip_data.current_ip = Some(candidate);
        true
    }
}

/// Observing `a` and then a different address `b` leaves `a` as the previous
/// and `b` as the current address, whatever the record held before; observing
/// `b` once more is no change and leaves the record as it is.
pub proof fn lemma_observe_twice_then_repeat(r: AddressRecord, a: Seq<char>, b: Seq<char>)
    requires
        a != b,
    ensures
        r.observe(a).observe(b).previous == Some(a),
        r.observe(a).observe(b).current == Some(b),
        !r.observe(a).observe(b).differs_from(b),
        r.observe(a).observe(b).observe(b) == r.observe(a).observe(b),
{
}

/// The first address observed is a change: it becomes the current address,
/// and there is no previous one.
pub proof fn lemma_first_observation(ip: Seq<char>)
    ensures
        AddressRecord::empty().differs_from(ip),
        AddressRecord::empty().observe(ip) == (AddressRecord { previous: None, current: Some(ip) }),
{
}

/// Observing an address is idempotent: the second observation of the same
/// address never reports a change and never alters the record.
pub proof fn lemma_observe_idempotent(r: AddressRecord, ip: Seq<char>)
    ensures
        !r.observe(ip).differs_from(ip),
        r.observe(ip).observe(ip) == r.observe(ip),
{
}

/// A detected change always leaves a consistent record, and an observation
/// that is no change keeps a consistent record consistent.
pub proof fn lemma_observe_consistent(r: AddressRecord, ip: Seq<char>)
    ensures
        r.differs_from(ip) ==> r.observe(ip).consistent(),
        r.consistent() ==> r.observe(ip).consistent(),
{
}

} // verus!
