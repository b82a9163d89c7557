//! The authority component of a URI and its micro-form validator.
//!
//! A `UAuthority` carries at most one remote designator: a name, an IP
//! address, or an opaque identifier. The micro (compact binary) encoding of a
//! URI accepts only IP addresses of exactly 4 or 16 bytes and identifiers of
//! 1 to 255 bytes; `validate_micro_form` decides this and reports every
//! reason a value fails.

use vstd::prelude::*;
use crate::validation::ValidationError;

verus! {

/// Byte length of an IPv4 address.
pub const REMOTE_IPV4_BYTES: usize = 4;

/// Byte length of an IPv6 address.
pub const REMOTE_IPV6_BYTES: usize = 16;

/// Smallest identifier length the micro form can carry.
pub const REMOTE_ID_MINIMUM_BYTES: usize = 1;

/// Largest identifier length the micro form can carry: its length field is a
/// single byte.
pub const REMOTE_ID_MAXIMUM_BYTES: usize = 255;

/// The remote designator of an authority: exactly one of the three
/// addressing forms. Representing the designator as a single-slot sum type
/// makes simultaneously-set forms unrepresentable.
#[derive(Debug, Clone, PartialEq, Eq)]
pub enum Remote {
    /// A human-readable identifier, used in long-form URIs only.
    Name(String),
    /// A raw network address. Any length is representable; only 4 (IPv4) and
    /// 16 (IPv6) bytes are valid for the micro form.
    Ip(Vec<u8>),
    /// An opaque binary identifier. Any length is representable; only 1 to
    /// 255 bytes are valid for the micro form.
    Id(Vec<u8>),
}

/// The mathematical model of a remote designator: the designator's form and
/// the sequence of characters or bytes it carries.
pub enum RemoteModel {
    Name(Seq<char>),
    Ip(Seq<u8>),
    Id(Seq<u8>),
}

/// The location/owner of a resource in the addressing scheme: an absent
/// remote designator refers to the local node.
#[derive(Debug, Clone, PartialEq, Eq)]
pub struct UAuthority {
    pub remote: Option<Remote>,
}

impl View for UAuthority {
    type V = Option<RemoteModel>;

    open spec fn view(&self) -> Option<RemoteModel> {
        match self.remote {
            None => None,
            Some(Remote::Name(n)) => Some(RemoteModel::Name(n@)),
            Some(Remote::Ip(b)) => Some(RemoteModel::Ip(b@)),
            Some(Remote::Id(b)) => Some(RemoteModel::Id(b@)),
        }
    }
}

/// True when the remote designator is a name.
pub open spec fn is_name(remote: Option<RemoteModel>) -> bool {
    remote matches Some(RemoteModel::Name(_))
}

/// True when the remote designator is an IP address.
pub open spec fn is_ip(remote: Option<RemoteModel>) -> bool {
    remote matches Some(RemoteModel::Ip(_))
}

/// True when the remote designator is an opaque identifier.
pub open spec fn is_id(remote: Option<RemoteModel>) -> bool {
    remote matches Some(RemoteModel::Id(_))
}

/// True when an authority with this remote designator is legal input to the
/// micro-form encoding: an IP address of exactly 4 or 16 bytes, or an
/// identifier of 1 to 255 bytes.
pub open spec fn micro_form_ok(remote: Option<RemoteModel>) -> bool {
    match remote {
        Some(RemoteModel::Ip(b)) => b.len() == REMOTE_IPV4_BYTES || b.len() == REMOTE_IPV6_BYTES,
        Some(RemoteModel::Id(b)) => REMOTE_ID_MINIMUM_BYTES <= b.len() <= REMOTE_ID_MAXIMUM_BYTES,
        _ => false,
    }
}

/// The one failure reason that a remote designator of this form triggers when
/// it is not legal input to the micro-form encoding.
pub open spec fn micro_form_failure(remote: Option<RemoteModel>) -> Seq<char> {
    match remote {
        None => "Has Authority, but no remote"@,
        Some(RemoteModel::Ip(_)) => "IP address is not IPv4 (4 bytes) or IPv6 (16 bytes)"@,
        Some(RemoteModel::Id(_)) => "ID doesn't fit in bytes allocated"@,
        Some(RemoteModel::Name(_)) => "Must use IP address or ID as UAuthority for micro form."@,
    }
}

impl Default for UAuthority {
    /// An authority with no remote designator set.
    fn default() -> (r: Self)
        ensures
            r@ is None,
    {
        UAuthority { remote: None }
    }
}

impl UAuthority {
    /// True exactly when the remote designator is a name.
    pub fn has_name(&self) -> (r: bool)
        ensures
            r == is_name(self@),
    {
        matches!(self.remote, Some(Remote::Name(_)))
    }

    /// True exactly when the remote designator is an IP address.
    pub fn has_ip(&self) -> (r: bool)
        ensures
            r == is_ip(self@),
    {
        matches!(self.remote, Some(Remote::Ip(_)))
    }

    /// True exactly when the remote designator is an opaque identifier.
    pub fn has_id(&self) -> (r: bool)
        ensures
            r == is_id(self@),
    {
        matches!(self.remote, Some(Remote::Id(_)))
    }

    /// The name, when the remote designator is a name; absence of that
    /// variant is a normal outcome, not a failure.
    pub fn get_name(&self) -> (r: Option<&str>)
        ensures
            r is Some <==> is_name(self@),
            r matches Some(s) ==> self@ == Some(RemoteModel::Name(s@)),
    {
        match &self.remote {
            Some(Remote::Name(name)) => Some(name.as_str()),
            _ => None,
        }
    }

    /// The IP address bytes, when the remote designator is an IP address.
    pub fn get_ip(&self) -> (r: Option<&[u8]>)
        ensures
            r is Some <==> is_ip(self@),
            r matches Some(b) ==> self@ == Some(RemoteModel::Ip(b@)),
    {
        match &self.remote {
            Some(Remote::Ip(ip)) => Some(ip.as_slice()),
            _ => None,
        }
    }

    /// The identifier bytes, when the remote designator is an opaque
    /// identifier.
    pub fn get_id(&self) -> (r: Option<&[u8]>)
        ensures
            r is Some <==> is_id(self@),
            r matches Some(b) ==> self@ == Some(RemoteModel::Id(b@)),
    {
        match &self.remote {
            Some(Remote::Id(id)) => Some(id.as_slice()),
            _ => None,
        }
    }

    /// Replaces the current remote designator, if any, with the given name,
    /// and returns the authority for fluent chaining. No validation happens
    /// here: a name is representable, though never valid for the micro form.
    pub fn set_name(&mut self, name: String) -> (r: &mut Self)
        ensures
            (*r)@ == Some(RemoteModel::Name(name@)),
            *final(self) == *final(r),
    {
        self.remote = Some(Remote::Name(name));
        self
    }

    /// Replaces the current remote designator, if any, with the given IP
    /// address bytes, and returns the authority for fluent chaining. No
    /// validation happens here: any length is representable.
    pub fn set_ip(&mut self, ip: Vec<u8>) -> (r: &mut Self)
        ensures
            (*r)@ == Some(RemoteModel::Ip(ip@)),
            *final(self) == *final(r),
    {
        self.remote = Some(Remote::Ip(ip));
        self
    }

    /// Replaces the current remote designator, if any, with the given
    /// identifier bytes, and returns the authority for fluent chaining. No
    /// validation happens here: any length is representable.
    pub fn set_id(&mut self, id: Vec<u8>) -> (r: &mut Self)
        ensures
            (*r)@ == Some(RemoteModel::Id(id@)),
            *final(self) == *final(r),
    {
        self.remote = Some(Remote::Id(id));
        self
    }

    /// Decides whether this authority is legal input to the micro-form
    /// encoding, and on failure reports every triggered reason, joined into
    /// one aggregated error. The variants being mutually exclusive, at most
    /// one reason ever triggers, but the aggregation mechanism stands ready
    /// for further per-variant checks.
    pub fn validate_micro_form(&self) -> (r: Result<(), ValidationError>)
        ensures
            r is Ok <==> micro_form_ok(self@),
            r matches Err(e) ==> e@ == micro_form_failure(self@),
    {
        let mut validation_errors: Vec<ValidationError> = Vec::new();

        match &self.remote {
            None => {
                validation_errors.push(ValidationError::new("Has Authority, but no remote"));
            }
            Some(Remote::Ip(ip)) => {
                if !(ip.len() == REMOTE_IPV4_BYTES || ip.len() == REMOTE_IPV6_BYTES) {
                    validation_errors.push(ValidationError::new(
                        "IP address is not IPv4 (4 bytes) or IPv6 (16 bytes)",
                    ));
                }
            }
            Some(Remote::Id(id)) => {
                if !(REMOTE_ID_MINIMUM_BYTES <= id.len() && id.len() <= REMOTE_ID_MAXIMUM_BYTES) {
                    validation_errors.push(ValidationError::new(
                        "ID doesn't fit in bytes allocated",
                    ));
                }
            }
            Some(Remote::Name(_)) => {
                validation_errors.push(ValidationError::new(
                    "Must use IP address or ID as UAuthority for micro form.",
                ));
            }
        }

        if validation_errors.len() > 0 {
            Err(ValidationError::joining(&validation_errors))
        } else {
            Ok(())
        }
    }
}

/// The three designator predicates are pairwise mutually exclusive, and
/// exactly one of them holds exactly when a remote designator is set.
pub proof fn lemma_designators_exclusive(remote: Option<RemoteModel>)
    ensures
        !(is_name(remote) && is_ip(remote)),
        !(is_name(remote) && is_id(remote)),
        !(is_ip(remote) && is_id(remote)),
        (is_name(remote) || is_ip(remote) || is_id(remote)) <==> remote is Some,
{
}

} // verus!
