//! The system resolver implementation.

use vstd::prelude::*;
use vstd::std_specs::convert::FromSpecImpl;

use crate::addr_info_hints::AddrInfoHints;
use crate::addr_info_hints::AddressFamily;
use crate::addr_info_hints::NativeFamilies;
use crate::addr_info_hints::NativeHints;
use crate::background;

verus! {

/// [`System`] encapsulates logic to perform the name resolution in
/// the background using system resolution mechanisms.
///
/// It decides what the system's `getaddrinfo` is asked, as a
/// [`LookupRequest`], and what becomes of the records that come back, in
/// [`collect_addresses`]. Making the call, on a thread that may block, is
/// left to the caller.
#[derive(Debug, Clone)]
pub struct System {
    /// The hints to give the the system resolver when performing the
    /// resolution.
    ///
    /// Passing [`None`] is not equivalent to passing [`Some`] value filled with
    /// zeroes, as underlying systems typically have some non-trivial defaults
    /// when hint is omitted.
    pub addr_info_hints: Option<NativeHints>,
    /// The name of the service to resolve.
    /// If set to [`None`], the network address of the node is resolved.
    /// If set to [`Some`], the the requested service address is resolved.
    /// This can be either a descriptive name or a numeric representation
    /// suitable for use with the address family or families.
    /// If the specified address family is AF_INET,  AF_INET6, or AF_UNSPEC,
    /// the service can be specified as a string specifying a decimal port
    /// number.
    ///
    /// As it stands the field is kept and never used: no request names a
    /// service, whatever is set here.
    pub service: Option<String>,
}

/// One call of the system's `getaddrinfo`, as its three arguments.
#[derive(Debug, Clone, PartialEq, Eq)]
pub struct LookupRequest {
    /// The host name to look up.
    pub host: String,
    /// The service to look up, if any.
    pub service: Option<String>,
    /// The hints to pass, or [`None`] to pass no hints at all.
    pub hints: Option<NativeHints>,
}

impl Default for System {
    /// A resolver that passes no hints and names no service.
    fn default() -> (system: Self)
        ensures
            system.addr_info_hints is None,
            system.service is None,
    {
        System { addr_info_hints: None, service: None }
    }
}

impl System {
    /// The call that this resolver makes for `name`: the name as host, the
    /// resolver's hints as they are, absent where they are absent, and no
    /// service.
    pub open spec fn request_for(&self, name: String) -> LookupRequest {
        LookupRequest { host: name, service: None, hints: self.addr_info_hints }
    }

    /// Use this [`System`] to create a new [`Resolver`].
    pub fn resolver(self) -> (resolver: Resolver)
        ensures
            resolver == Resolver::backed_by(self),
            resolver.inner() == self,
    {
        Resolver::new(self)
    }
}

impl background::Resolve for System {
    type Name = String;

    type Handle = LookupRequest;

    open spec fn resolves(&self, name: String, after: &Self, handle: LookupRequest) -> bool {
        &&& *after == *self
        &&& handle == self.request_for(name)
    }

    /// Says what to ask the system for `name`, and leaves the resolver as it
    /// was. The hints are copied into the request, so that the work that
    /// carries the request out shares nothing with the resolver.
    fn resolve(&mut self, name: String) -> (handle: LookupRequest) {
        LookupRequest { host: name, service: None, hints: self.addr_info_hints }
    }
}

/// Resolutions that go through one [`System`] do not interfere. Of two calls,
/// one after the other, each gets the request for its own name, with the
/// resolver's hints; the second gets what it would have got had the first
/// never been made; the resolver is afterwards what it was before; and the
/// requests for two different names differ.
pub proof fn lemma_resolutions_do_not_interfere(
    system: System,
    first: String,
    second: String,
    between: System,
    after: System,
    first_request: LookupRequest,
    second_request: LookupRequest,
)
    requires
        background::Resolve::resolves(&system, first, &between, first_request),
        background::Resolve::resolves(&between, second, &after, second_request),
    ensures
        after == system,
        first_request.host == first,
        second_request.host == second,
        first_request.hints == system.addr_info_hints,
        second_request.hints == system.addr_info_hints,
        second_request == system.request_for(second),
        first@ != second@ ==> first_request != second_request,
{
}

/// Passing no hints is not passing blank hints, nor the hints that ask for no
/// address family in particular: the one request holds no hints at all, the
/// other holds hints, whatever number the platform has for "no preference".
pub proof fn lemma_absent_hints_are_not_default_hints(
    name: String,
    service: Option<String>,
    table: NativeFamilies,
)
    ensures
        ({
            let without = System { addr_info_hints: None, service };
            let with = System {
                addr_info_hints: Some(
                    (AddrInfoHints { address_family: AddressFamily::Unspec }).native_in(table),
                ),
                service,
            };
            &&& without.request_for(name).hints is None
            &&& with.request_for(name).hints == Some(
                NativeHints { flags: 0, address: table.unspec, socktype: 0, protocol: 0 },
            )
            &&& without.request_for(name) != with.request_for(name)
        }),
{
}

/// Whether the record at `index` is the first of `records` that is a failure.
pub open spec fn is_first_failure<A, E>(records: Seq<Result<A, E>>, index: int) -> bool {
    &&& 0 <= index < records.len()
    &&& records[index] is Err
    &&& forall|earlier: int| 0 <= earlier < index ==> (#[trigger] records[earlier]) is Ok
}

/// Collects the records of one resolution, in the order in which the system
/// gave them, into the addresses of that resolution.
///
/// Where every record is an address the result is all of them, as many and in
/// the same order; for no record at all that is the empty list, which is no
/// failure. Where a record is a failure the resolution fails as a whole, with
/// the first such failure, and no address is handed out.
pub fn collect_addresses<A, E>(records: Vec<Result<A, E>>) -> (outcome: Result<Vec<A>, E>)
    ensures
        match outcome {
            Ok(addrs) => {
                &&& addrs@.len() == records@.len()
                &&& forall|i: int|
                    0 <= i < records@.len() ==> (#[trigger] records@[i]) == Ok::<A, E>(addrs@[i])
            },
            Err(err) => exists|index: int|
                is_first_failure(records@, index) && #[trigger] records@[index] == Err::<A, E>(
                    err,
                ),
        },
{
    let ghost all = records@;
    let mut addrs: Vec<A> = Vec::new();
    for record in iter: records
        invariant
            iter.seq() == all,
            addrs@.len() == iter.index(),
            forall|i: int| 0 <= i < iter.index() ==> (#[trigger] all[i]) == Ok::<A, E>(addrs@[i]),
    {
        match record {
            Ok(addr) => {
                addrs.push(addr);
            },
            Err(err) => {
                assert(is_first_failure(all, iter.index() as int));
                return Err(err);
            },
        }
    }
    Ok(addrs)
}

/// System resolver service.
pub type Resolver = background::Resolver<System>;

impl From<System> for Resolver {
    fn from(system: System) -> (resolver: Self) {
        system.resolver()
    }
}

impl FromSpecImpl<System> for Resolver {
    open spec fn obeys_from_spec() -> bool {
        true
    }

    /// The service that the system resolver backs.
    open spec fn from_spec(system: System) -> Self {
        Resolver::backed_by(system)
    }
}

} // verus!
