//! Which strings the bus takes as names.
//!
//! A message names a service, an object, an interface and a member, and
//! the bus takes each of these only in a form of its own. Whether a string
//! has that form is asked of the `dbus` crate, whose answer is given a name
//! here: the four functions without a body stand for what its four
//! validating constructors accept, and the four wrappers make the calls.
//! Nothing else is claimed of the names.

use crate::wire::{MethodCall, MethodCallView};
use dbus::strings::{BusName, Interface, Member, Path};
use vstd::prelude::*;

verus! {

/// Whether `dbus::strings::BusName::new` accepts the string.
pub uninterp spec fn accepts_bus_name(name: Seq<char>) -> bool;

/// Whether `dbus::strings::Path::new` accepts the string.
pub uninterp spec fn accepts_object_path(path: Seq<char>) -> bool;

/// Whether `dbus::strings::Interface::new` accepts the string.
pub uninterp spec fn accepts_interface(name: Seq<char>) -> bool;

/// Whether `dbus::strings::Member::new` accepts the string.
pub uninterp spec fn accepts_member(name: Seq<char>) -> bool;

/// Calls `dbus::strings::BusName::new`, which returns `Ok` where the
/// string is a valid bus name and `Err` where it is not. The result says
/// which of the two it was.
#[verifier::external_body]
fn is_bus_name(name: &str) -> (accepted: bool)
    ensures
        accepted == accepts_bus_name(name@),
{
    BusName::new(name).is_ok()
}

/// Calls `dbus::strings::Path::new`, which returns `Ok` where the string
/// is a valid object path and `Err` where it is not. The result says which
/// of the two it was.
#[verifier::external_body]
fn is_object_path(path: &str) -> (accepted: bool)
    ensures
        accepted == accepts_object_path(path@),
{
    Path::new(path).is_ok()
}

/// Calls `dbus::strings::Interface::new`, which returns `Ok` where the
/// string is a valid interface name and `Err` where it is not. The result
/// says which of the two it was.
#[verifier::external_body]
fn is_interface(name: &str) -> (accepted: bool)
    ensures
        accepted == accepts_interface(name@),
{
    Interface::new(name).is_ok()
}

/// Calls `dbus::strings::Member::new`, which returns `Ok` where the string
/// is a valid member name and `Err` where it is not. The result says which
/// of the two it was.
#[verifier::external_body]
fn is_member(name: &str) -> (accepted: bool)
    ensures
        accepted == accepts_member(name@),
{
    Member::new(name).is_ok()
}

/// Whether the bus takes each of the four names of a call.
pub open spec fn well_formed(call: MethodCallView) -> bool {
    &&& accepts_bus_name(call.destination)
    &&& accepts_object_path(call.path)
    &&& accepts_interface(call.interface)
    &&& accepts_member(call.member)
}

impl MethodCall {
    /// Whether the bus takes each of the four names of the call, so that a
    /// message can be built of it.
    pub fn is_well_formed(&self) -> (accepted: bool)
        ensures
            accepted == well_formed(self@),
    {
        is_bus_name(self.destination.as_str()) && is_object_path(self.path.as_str())
            && is_interface(self.interface.as_str()) && is_member(self.member.as_str())
    }
}

} // verus!
