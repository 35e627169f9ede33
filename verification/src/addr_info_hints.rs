//! [`AddrInfoHints`] and associated types.
//!
//! This is only required if you prefer a portable interface.
//! You can fill in a raw [`NativeHints`] instead.
//!
//! The numbers that stand for the named address families belong to the
//! platform. The library reads them from `libc` and takes only one of them as
//! known, the zero that every platform has for "any family". Every other
//! statement about a named family is made against a [`NativeFamilies`] table,
//! which [`NativeFamilies::platform`] fills at run time.

use vstd::prelude::*;
use vstd::std_specs::convert::FromSpecImpl;

verus! {

/// `dns_lookup::AddrFamily`, an enum of three variants without fields, which
/// Verus reads from the crate itself.
#[verifier::external_type_specification]
pub struct ExAddrFamily(dns_lookup::AddrFamily);

/// Reads `libc::AF_UNSPEC`. Every platform for which `libc` defines the
/// constant defines it as zero, and that is what is claimed.
#[verifier::external_body]
fn af_unspec() -> (code: i32)
    ensures
        code == 0,
{
    libc::AF_UNSPEC
}

/// Reads `libc::AF_UNIX`. The value differs between platforms, so nothing is
/// claimed about it.
#[verifier::external_body]
fn af_unix() -> (code: i32) {
    libc::AF_UNIX
}

/// Reads `libc::AF_INET`. The value differs between platforms, so nothing is
/// claimed about it.
#[verifier::external_body]
fn af_inet() -> (code: i32) {
    libc::AF_INET
}

/// Reads `libc::AF_INET6`. The value differs between platforms, so nothing
/// is claimed about it.
#[verifier::external_body]
fn af_inet6() -> (code: i32) {
    libc::AF_INET6
}

/// The numbers by which a platform knows the four named address families.
#[derive(Debug, Clone, Copy, PartialEq, Eq, Structural)]
pub struct NativeFamilies {
    /// The "any family" constant, `AF_UNSPEC`.
    pub unspec: i32,
    /// The UNIX-domain constant, `AF_UNIX`.
    pub unix: i32,
    /// The IPv4 constant, `AF_INET`.
    pub inet: i32,
    /// The IPv6 constant, `AF_INET6`.
    pub inet6: i32,
}

impl NativeFamilies {
    /// The table of the platform this library was built for, as `libc` defines
    /// it. "Any family" is zero there, as everywhere. The numbers of the three
    /// other families differ from platform to platform: they are read, and no
    /// contract speaks of them.
    pub fn platform() -> (table: Self)
        ensures
            table.unspec == 0,
    {
        NativeFamilies { unspec: af_unspec(), unix: af_unix(), inet: af_inet(), inet6: af_inet6() }
    }
}

/// The hints argument of the system's `getaddrinfo`, field for field. Zero
/// in a field means that the field narrows nothing.
#[derive(Debug, Clone, Copy, PartialEq, Eq, Structural)]
pub struct NativeHints {
    /// Optional bitmask arguments, `ai_flags`.
    pub flags: i32,
    /// Address family for this socket, `ai_family`.
    pub address: i32,
    /// Type of this socket, `ai_socktype`.
    pub socktype: i32,
    /// Protocol for this socket, `ai_protocol`.
    pub protocol: i32,
}

impl Default for NativeHints {
    /// Blank hints: zero in every field.
    fn default() -> (hints: Self)
        ensures
            hints == (NativeHints { flags: 0, address: 0, socktype: 0, protocol: 0 }),
    {
        NativeHints { flags: 0, address: 0, socktype: 0, protocol: 0 }
    }
}

/// The address family to request when resolving the name.
#[derive(Debug, Clone, Copy, PartialEq, Eq, Structural)]
pub enum AddressFamily {
    /// No preference.
    Unspec,
    /// Request UNIX-family address.
    Unix,
    /// Request IPv4-family address.
    Inet,
    /// Request IPv6-family address.
    Inet6,
    /// Request custom address family.
    Custom(i32),
}

impl AddressFamily {
    /// The number that stands for this family on a platform whose constants
    /// are `table`. A custom family is its own number, whatever the table.
    pub open spec fn native_in(self, table: NativeFamilies) -> i32 {
        match self {
            AddressFamily::Unspec => table.unspec,
            AddressFamily::Unix => table.unix,
            AddressFamily::Inet => table.inet,
            AddressFamily::Inet6 => table.inet6,
            AddressFamily::Custom(code) => code,
        }
    }

    /// Maps the family to its number in `table`. Total: every variant has a
    /// number, and a custom one is passed through unchanged, valid or not.
    pub fn to_native_in(self, table: &NativeFamilies) -> (code: i32)
        ensures
            code == self.native_in(*table),
    {
        match self {
            AddressFamily::Unspec => table.unspec,
            AddressFamily::Unix => table.unix,
            AddressFamily::Inet => table.inet,
            AddressFamily::Inet6 => table.inet6,
            AddressFamily::Custom(code) => code,
        }
    }

    /// Maps the family to the number that this platform's resolver expects:
    /// zero for no preference, and a custom number unchanged. For the three
    /// other families the number is read from `libc`, and nothing is proved of
    /// it; [`Self::to_native_in`] says which entry of a table it is.
    pub fn to_native(self) -> (code: i32)
        ensures
            self is Unspec ==> code == 0,
            self matches AddressFamily::Custom(n) ==> code == n,
    {
        let table = NativeFamilies::platform();
        self.to_native_in(&table)
    }
}

impl Default for AddressFamily {
    /// No preference.
    fn default() -> (family: Self)
        ensures
            family == AddressFamily::Unspec,
    {
        AddressFamily::Unspec
    }
}

impl From<dns_lookup::AddrFamily> for AddressFamily {
    fn from(af: dns_lookup::AddrFamily) -> (family: Self) {
        match af {
            dns_lookup::AddrFamily::Inet => AddressFamily::Inet,
            dns_lookup::AddrFamily::Inet6 => AddressFamily::Inet6,
            dns_lookup::AddrFamily::Unix => AddressFamily::Unix,
        }
    }
}

impl FromSpecImpl<dns_lookup::AddrFamily> for AddressFamily {
    open spec fn obeys_from_spec() -> bool {
        true
    }

    /// Each of the three families that `dns_lookup` names is the family of the
    /// same name here.
    open spec fn from_spec(af: dns_lookup::AddrFamily) -> Self {
        match af {
            dns_lookup::AddrFamily::Inet => AddressFamily::Inet,
            dns_lookup::AddrFamily::Inet6 => AddressFamily::Inet6,
            dns_lookup::AddrFamily::Unix => AddressFamily::Unix,
        }
    }
}

/// Portable [`AddrInfoHints`].
#[derive(Debug, Clone, Copy, PartialEq, Eq, Structural)]
pub struct AddrInfoHints {
    /// Address family to request.
    pub address_family: AddressFamily,
}

impl Default for AddrInfoHints {
    /// Hints with no preference for an address family.
    fn default() -> (hints: Self)
        ensures
            hints.address_family == AddressFamily::Unspec,
    {
        AddrInfoHints { address_family: AddressFamily::Unspec }
    }
}

impl AddrInfoHints {
    /// Create a new [`AddrInfoHints`] builder.
    pub fn builder() -> (builder: AddrInfoHintsBuilder)
        ensures
            builder.chosen() is None,
    {
        AddrInfoHintsBuilder::default()
    }

    /// The hints as the resolver takes them, on a platform whose constants are
    /// `table`: the family's number, and zero in every other field.
    pub open spec fn native_in(self, table: NativeFamilies) -> NativeHints {
        NativeHints {
            flags: 0,
            address: self.address_family.native_in(table),
            socktype: 0,
            protocol: 0,
        }
    }

    /// Builds the resolver's hints from these, with the family's number taken
    /// from `table`.
    pub fn to_native_in(&self, table: &NativeFamilies) -> (hints: NativeHints)
        ensures
            hints == self.native_in(*table),
    {
        let address = self.address_family.to_native_in(table);
        NativeHints { address, ..Default::default() }
    }
}

impl From<&AddrInfoHints> for NativeHints {
    /// Builds the resolver's hints for this platform. Every field but the
    /// family is zero; hints without a preference are blank altogether, and a
    /// custom family arrives unchanged. Which number one of the three other
    /// families gets is the platform's affair, see
    /// [`AddrInfoHints::to_native_in`].
    fn from(opts: &AddrInfoHints) -> (hints: Self)
        ensures
            hints.flags == 0,
            hints.socktype == 0,
            hints.protocol == 0,
            opts.address_family is Unspec ==> hints.address == 0,
            opts.address_family matches AddressFamily::Custom(n) ==> hints.address == n,
    {
        let table = NativeFamilies::platform();
        opts.to_native_in(&table)
    }
}

impl FromSpecImpl<&AddrInfoHints> for NativeHints {
    /// The result depends on the platform's constants, so no spec function
    /// gives it.
    open spec fn obeys_from_spec() -> bool {
        false
    }

    open spec fn from_spec(opts: &AddrInfoHints) -> Self {
        arbitrary()
    }
}

impl From<AddrInfoHints> for NativeHints {
    /// As for a reference to the hints.
    fn from(opts: AddrInfoHints) -> (hints: Self)
        ensures
            hints.flags == 0,
            hints.socktype == 0,
            hints.protocol == 0,
            opts.address_family is Unspec ==> hints.address == 0,
            opts.address_family matches AddressFamily::Custom(n) ==> hints.address == n,
    {
        From::from(&opts)
    }
}

impl FromSpecImpl<AddrInfoHints> for NativeHints {
    /// The result depends on the platform's constants, so no spec function
    /// gives it.
    open spec fn obeys_from_spec() -> bool {
        false
    }

    open spec fn from_spec(opts: AddrInfoHints) -> Self {
        arbitrary()
    }
}

/// Builder for [`AddrInfoHints`].
#[derive(Clone)]
pub struct AddrInfoHintsBuilder {
    address_family: Option<AddressFamily>,
}

/// Error type for [`AddrInfoHintsBuilder`].
#[derive(Debug)]
#[non_exhaustive]
pub enum AddrInfoHintsBuilderError {
    /// Uninitialized field
    UninitializedField(&'static str),
    /// Custom validation error
    ValidationError(String),
}

impl AddrInfoHintsBuilder {
    /// The address family that was set, if one was.
    pub closed spec fn chosen(&self) -> Option<AddressFamily> {
        self.address_family
    }

    /// Address family to request.
    pub fn address_family(&mut self, value: AddressFamily) -> (builder: &mut Self)
        ensures
            builder.chosen() == Some(value),
            *final(self) == *final(builder),
    {
        self.address_family = Some(value);
        self
    }

    /// Builds a new [`AddrInfoHints`]. Never fails: a family that was not set
    /// is [`AddressFamily::Unspec`].
    pub fn build(&self) -> (built: Result<AddrInfoHints, AddrInfoHintsBuilderError>)
        ensures
            built == Ok::<AddrInfoHints, AddrInfoHintsBuilderError>(
                AddrInfoHints {
                    address_family: match self.chosen() {
                        Some(family) => family,
                        None => AddressFamily::Unspec,
                    },
                },
            ),
    {
        Ok(
            AddrInfoHints {
                address_family: match self.address_family {
                    Some(family) => family,
                    None => AddressFamily::default(),
                },
            },
        )
    }
}

impl Default for AddrInfoHintsBuilder {
    /// Create an empty builder, with no field set.
    fn default() -> (builder: Self)
        ensures
            builder.chosen() is None,
    {
        AddrInfoHintsBuilder { address_family: None }
    }
}

} // verus!
