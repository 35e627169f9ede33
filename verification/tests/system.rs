use hyper_system_resolver::addr_info_hints::{AddressFamily, NativeHints};
use hyper_system_resolver::background::{self, Resolve, ResolveError, Step, TaskPoll};
use hyper_system_resolver::system::{collect_addresses, LookupRequest, Resolver, System};
use hyper_system_resolver::AddrInfoHints;

/// Asks the system what `request` says, as the worker of a resolution does.
/// Each socket address is given as text, address and port.
fn perform(request: LookupRequest) -> TaskPoll<Vec<String>, std::io::Error> {
    let hints = request.hints.map(|hints| dns_lookup::AddrInfoHints {
        flags: hints.flags,
        address: hints.address,
        socktype: hints.socktype,
        protocol: hints.protocol,
    });
    let found = dns_lookup::getaddrinfo(Some(&request.host), request.service.as_deref(), hints);
    let returned = match found {
        Ok(iter) => collect_addresses(
            iter.map(|result| result.map(|addr_info| addr_info.sockaddr.to_string()))
                .collect(),
        ),
        Err(err) => Err(err.into()),
    };
    TaskPoll::Returned(returned)
}

#[test]
fn test_resolve_ipv4() {
    let mut resolver = background::Resolver::new(System {
        addr_info_hints: Some(NativeHints {
            address: dns_lookup::AddrFamily::Inet.into(),
            ..Default::default()
        }),
        service: None,
    });

    let mut future = resolver.call("localhost".to_string());
    let request = future.handle_mut().clone();
    let addrs: Vec<_> = match future.poll(perform(request)) {
        Step::Ready(result) => result.unwrap(),
        Step::Pending => panic!("the task has returned"),
    };

    let localhost = "127.0.0.1:0";

    assert!(addrs.len() > 0);
    for addr in addrs {
        assert_eq!(addr, localhost);
    }
}

#[test]
fn resolve_ipv6_literal() {
    let mut resolver = background::Resolver::new(System {
        addr_info_hints: Some(NativeHints {
            address: dns_lookup::AddrFamily::Inet6.into(),
            ..Default::default()
        }),
        service: None,
    });

    let mut future = resolver.call("::1".to_string());
    let request = future.handle_mut().clone();
    let addrs: Vec<_> = match future.poll(perform(request)) {
        Step::Ready(result) => result.unwrap(),
        Step::Pending => panic!("the task has returned"),
    };

    assert!(addrs.len() > 0);
    for addr in addrs {
        assert_eq!(addr, "[::1]:0");
    }
}

#[test]
fn resolve_rejects_a_literal_of_the_other_family() {
    let mut system = System {
        addr_info_hints: Some(
            AddrInfoHints {
                address_family: AddressFamily::Inet,
            }
            .into(),
        ),
        service: None,
    };
    let request = system.resolve("::1".to_string());
    match perform(request) {
        TaskPoll::Returned(Err(_)) => {}
        other => panic!("unexpected {:?}", other),
    }
}

#[test]
fn resolve_with_portable_hints() {
    let mut system = System {
        addr_info_hints: Some(
            AddrInfoHints {
                address_family: AddressFamily::Inet,
            }
            .into(),
        ),
        service: None,
    };
    let request = system.resolve("localhost".to_string());
    match perform(request) {
        TaskPoll::Returned(Ok(addrs)) => {
            assert!(!addrs.is_empty());
            assert!(addrs.iter().all(|addr| addr == "127.0.0.1:0"));
        }
        other => panic!("unexpected {:?}", other),
    }
}

#[test]
fn resolve_reports_a_failed_lookup() {
    let mut resolver = System::default().resolver();
    let mut future = resolver.call("no-such-host.invalid".to_string());
    let request = future.handle_mut().clone();
    match future.poll(perform(request)) {
        Step::Ready(Err(ResolveError::Resolution(_))) => {}
        other => panic!("unexpected {:?}", other),
    }
}

#[test]
fn default_system_has_no_hints_and_no_service() {
    let system = System::default();
    assert_eq!(system.addr_info_hints, None);
    assert_eq!(system.service, None);
}

#[test]
fn request_carries_name_and_hints() {
    let hints = NativeHints {
        flags: 1,
        address: 2,
        socktype: 3,
        protocol: 4,
    };
    let mut system = System {
        addr_info_hints: Some(hints),
        service: None,
    };
    let request = system.resolve("example.org".to_string());
    assert_eq!(
        request,
        LookupRequest {
            host: "example.org".to_string(),
            service: None,
            hints: Some(hints),
        }
    );
    assert_eq!(system.addr_info_hints, Some(hints));
    assert_eq!(system.service, None);
}

#[test]
fn request_never_names_a_service() {
    let mut system = System {
        addr_info_hints: None,
        service: Some("https".to_string()),
    };
    let request = system.resolve("example.org".to_string());
    assert_eq!(request.service, None);
    assert_eq!(system.service, Some("https".to_string()));
}

#[test]
fn absent_hints_differ_from_default_hints() {
    let mut without = System {
        addr_info_hints: None,
        service: None,
    };
    let mut with = System {
        addr_info_hints: Some(AddrInfoHints::default().into()),
        service: None,
    };
    let bare = without.resolve("example.org".to_string());
    let hinted = with.resolve("example.org".to_string());
    assert_eq!(bare.hints, None);
    assert_eq!(
        hinted.hints,
        Some(NativeHints {
            flags: 0,
            address: libc::AF_UNSPEC,
            socktype: 0,
            protocol: 0,
        })
    );
    assert_ne!(bare, hinted);
}

#[test]
fn requests_of_one_resolver_do_not_interfere() {
    let hints = NativeHints {
        address: libc::AF_INET,
        ..Default::default()
    };
    let mut resolver: Resolver = System {
        addr_info_hints: Some(hints),
        service: None,
    }
    .into();
    let names = ["a.example", "b.example", "c.example"];
    let mut futures = Vec::new();
    for name in names {
        futures.push(resolver.call(name.to_string()));
    }
    for (future, name) in futures.iter_mut().zip(names) {
        assert_eq!(future.handle_mut().host, name);
        assert_eq!(future.handle_mut().hints, Some(hints));
    }
    let alone = System {
        addr_info_hints: Some(hints),
        service: None,
    }
    .resolve("c.example".to_string());
    assert_eq!(*futures[2].handle_mut(), alone);
    assert_eq!(resolver.into_inner().addr_info_hints, Some(hints));
}

#[test]
fn resolver_from_system() {
    let system = System {
        addr_info_hints: None,
        service: Some("80".to_string()),
    };
    let resolver = Resolver::from(system.clone());
    assert_eq!(resolver.as_ref().service, system.service);
    assert_eq!(resolver.as_ref().addr_info_hints, None);
    let resolver = system.clone().resolver();
    assert_eq!(resolver.into_inner().service, Some("80".to_string()));
}

#[test]
fn collect_keeps_every_address_in_order() {
    let records: Vec<Result<u16, String>> = vec![Ok(3), Ok(1), Ok(2), Ok(1)];
    assert_eq!(collect_addresses(records), Ok(vec![3, 1, 2, 1]));
}

#[test]
fn collect_of_no_record_is_an_empty_success() {
    let records: Vec<Result<u16, String>> = Vec::new();
    assert_eq!(collect_addresses(records), Ok(Vec::new()));
}

#[test]
fn collect_fails_with_the_first_failure() {
    let records: Vec<Result<u16, String>> = vec![
        Ok(3),
        Err("second".to_string()),
        Ok(2),
        Err("fourth".to_string()),
    ];
    assert_eq!(collect_addresses(records), Err("second".to_string()));
    let records: Vec<Result<u16, String>> = vec![Err("first".to_string())];
    assert_eq!(collect_addresses(records), Err("first".to_string()));
    let records: Vec<Result<u16, String>> = vec![Ok(1), Ok(2), Err("last".to_string())];
    assert_eq!(collect_addresses(records), Err("last".to_string()));
}
