use unimap::errors::PipelineError;
use unimap::nmap::{
    build_scan_args, extract_open_ports, filter_open_ports, handle_scan_event, port_ids,
    Host, Hostnames, Nmaprun, Port, Ports, ScanEvent, Service, State, Status,
};
use unimap::resolver_engine::{
    check_targets, dedupe_addresses, process_scan_events, project_results,
};
use unimap::structs::ResolvData;

fn port(id: &str, state: &str, service: &str) -> Port {
    Port {
        protocol: "tcp".to_string(),
        portid: id.to_string(),
        state: State {
            state: state.to_string(),
            reason: "syn-ack".to_string(),
            reason_ttl: "0".to_string(),
        },
        service: Some(Service {
            name: service.to_string(),
            method: "probed".to_string(),
            conf: "10".to_string(),
            product: None,
            ostype: None,
            version: None,
            extrainfo: None,
        }),
    }
}

fn report(address: &str, ports: Vec<Port>) -> Nmaprun {
    Nmaprun {
        scanner: "nmap".to_string(),
        args: String::new(),
        start: String::new(),
        startstr: String::new(),
        version: "7".to_string(),
        xmloutputversion: "1.05".to_string(),
        host: Some(Host {
            starttime: String::new(),
            endtime: String::new(),
            status: Status {
                state: "up".to_string(),
                reason: "user-set".to_string(),
                reason_ttl: "0".to_string(),
            },
            address: unimap::nmap::Address {
                addr: Some(address.to_string()),
                addrtype: Some("ipv4".to_string()),
            },
            hostnames: Hostnames { hostname: None },
            ports: Some(Ports { port: ports }),
        }),
    }
}

fn resolved_entry(hostname: &str, ip: &str) -> (String, ResolvData) {
    (
        hostname.to_string(),
        ResolvData {
            ip: ip.to_string(),
            ports_data: Vec::new(),
        },
    )
}

#[test]
fn empty_target_set_is_an_input_error() {
    let targets: Vec<String> = Vec::new();
    assert_eq!(check_targets(&targets), Err(PipelineError::InputError));
}

#[test]
fn nonempty_target_set_is_accepted() {
    let targets = vec!["example.com".to_string()];
    assert_eq!(check_targets(&targets), Ok(()));
}

#[test]
fn shared_address_is_scanned_once() {
    let resolved = vec![
        resolved_entry("a.example.com", "10.0.0.5"),
        resolved_entry("b.example.com", "10.0.0.5"),
    ];
    let ips = dedupe_addresses(&resolved);
    assert_eq!(ips, vec!["10.0.0.5".to_string()]);
}

#[test]
fn dedupe_discards_empty_and_keeps_distinct_addresses() {
    let resolved = vec![
        resolved_entry("a.example.com", "10.0.0.5"),
        resolved_entry("b.example.com", ""),
        resolved_entry("c.example.com", "10.0.0.6"),
        resolved_entry("d.example.com", "10.0.0.5"),
    ];
    let ips = dedupe_addresses(&resolved);
    assert_eq!(ips, vec!["10.0.0.5".to_string(), "10.0.0.6".to_string()]);
}

#[test]
fn every_hostname_gets_exactly_one_final_record() {
    let resolved = vec![
        resolved_entry("a.example.com", "10.0.0.5"),
        resolved_entry("b.example.com", ""),
        resolved_entry("c.example.com", "10.0.0.7"),
    ];
    // The scan table misses 10.0.0.7 entirely: a per-address scan failure.
    let scans = vec![("10.0.0.5".to_string(), vec![port("80", "open", "http")])];
    let out = project_results(&resolved, &scans);
    assert_eq!(out.len(), 3);
    assert_eq!(out[0].0, "a.example.com");
    assert_eq!(out[1].0, "b.example.com");
    assert_eq!(out[2].0, "c.example.com");
    assert_eq!(out[0].1.ports_data.len(), 1);
    assert!(out[1].1.ports_data.is_empty());
    assert!(out[2].1.ports_data.is_empty());
}

#[test]
fn filter_keeps_only_open_ports_in_order() {
    let ports = vec![
        port("80", "open", "http"),
        port("81", "closed", "hosts2-ns"),
        port("443", "open", "https"),
        port("8080", "filtered", "http-proxy"),
    ];
    let open = filter_open_ports(&ports);
    assert_eq!(open.len(), 2);
    assert_eq!(open[0].portid, "80");
    assert_eq!(open[1].portid, "443");
    for p in &open {
        assert_eq!(p.state.state, "open");
    }
}

#[test]
fn parsed_scan_event_keeps_only_open_ports() {
    let run = report(
        "10.0.0.5",
        vec![port("22", "open", "ssh"), port("23", "closed", "telnet")],
    );
    let out = handle_scan_event(&ScanEvent::Parsed(run)).unwrap();
    assert_eq!(out.len(), 1);
    assert_eq!(out[0].portid, "22");
}

#[test]
fn a_resolution_failure_does_not_change_another_record() {
    let scans = vec![("10.0.0.5".to_string(), vec![port("80", "open", "http")])];
    let with_a = vec![
        resolved_entry("a.example.com", "10.0.0.9"),
        resolved_entry("b.example.com", "10.0.0.5"),
    ];
    let a_failed = vec![
        resolved_entry("a.example.com", ""),
        resolved_entry("b.example.com", "10.0.0.5"),
    ];
    let out1 = project_results(&with_a, &scans);
    let out2 = project_results(&a_failed, &scans);
    assert_eq!(out1[1], out2[1]);
}

#[test]
fn scenario_single_host_with_two_open_ports() {
    let resolved = vec![resolved_entry("example.com", "93.184.216.34")];
    let ips = dedupe_addresses(&resolved);
    assert_eq!(ips, vec!["93.184.216.34".to_string()]);
    let events = vec![ScanEvent::Parsed(report(
        "93.184.216.34",
        vec![port("80", "open", "http"), port("443", "open", "https")],
    ))];
    let scans = process_scan_events(&ips, &events).unwrap();
    let out = project_results(&resolved, &scans);
    assert_eq!(out.len(), 1);
    assert_eq!(out[0].0, "example.com");
    assert_eq!(out[0].1.ip, "93.184.216.34");
    let ids = port_ids(&out[0].1.ports_data);
    assert_eq!(ids, vec!["80".to_string(), "443".to_string()]);
    assert_eq!(out[0].1.ports_data[0].service.as_ref().unwrap().name, "http");
    assert_eq!(out[0].1.ports_data[1].service.as_ref().unwrap().name, "https");
}

#[test]
fn scenario_two_hostnames_share_one_scan() {
    let resolved = vec![
        resolved_entry("a.example.com", "10.0.0.5"),
        resolved_entry("b.example.com", "10.0.0.5"),
    ];
    let ips = dedupe_addresses(&resolved);
    assert_eq!(ips.len(), 1);
    let events = vec![ScanEvent::Parsed(report(
        "10.0.0.5",
        vec![port("22", "open", "ssh")],
    ))];
    let scans = process_scan_events(&ips, &events).unwrap();
    let out = project_results(&resolved, &scans);
    assert_eq!(out.len(), 2);
    assert_eq!(out[0].1.ports_data, out[1].1.ports_data);
    assert_eq!(out[0].1.ports_data[0].portid, "22");
}

#[test]
fn scenario_unresolved_hostname_yields_empty_record_and_no_scan() {
    let resolved = vec![resolved_entry("nonexistent.invalid", "")];
    let ips = dedupe_addresses(&resolved);
    assert!(ips.is_empty());
    let events: Vec<ScanEvent> = Vec::new();
    let scans = process_scan_events(&ips, &events).unwrap();
    let out = project_results(&resolved, &scans);
    assert_eq!(out.len(), 1);
    assert_eq!(out[0].0, "nonexistent.invalid");
    assert_eq!(out[0].1.ip, "");
    assert!(out[0].1.ports_data.is_empty());
}

#[test]
fn scenario_missing_engine_is_fatal() {
    let ips = vec!["10.0.0.5".to_string(), "10.0.0.6".to_string()];
    let events = vec![
        ScanEvent::EngineUnavailable,
        ScanEvent::Parsed(report("10.0.0.6", vec![port("80", "open", "http")])),
    ];
    assert_eq!(
        process_scan_events(&ips, &events),
        Err(PipelineError::EngineUnavailable)
    );
}

#[test]
fn recoverable_scan_failures_yield_empty_results() {
    let ips = vec![
        "10.0.0.5".to_string(),
        "10.0.0.6".to_string(),
        "10.0.0.7".to_string(),
    ];
    let events = vec![
        ScanEvent::WaitFailed,
        ScanEvent::ArtifactMissing,
        ScanEvent::ParseFailed,
    ];
    let scans = process_scan_events(&ips, &events).unwrap();
    assert_eq!(scans.len(), 3);
    for (i, entry) in scans.iter().enumerate() {
        assert_eq!(entry.0, ips[i]);
        assert!(entry.1.is_empty());
    }
}

#[test]
fn process_pairs_each_address_with_its_event() {
    let ips = vec!["10.0.0.5".to_string(), "10.0.0.6".to_string()];
    let events = vec![
        ScanEvent::Parsed(report("10.0.0.5", vec![port("80", "open", "http")])),
        ScanEvent::WaitFailed,
    ];
    let scans = process_scan_events(&ips, &events).unwrap();
    assert_eq!(scans[0].0, "10.0.0.5");
    assert_eq!(scans[0].1.len(), 1);
    assert_eq!(scans[1].0, "10.0.0.6");
    assert!(scans[1].1.is_empty());
}

#[test]
fn extract_open_ports_without_host_is_empty() {
    let run = Nmaprun {
        scanner: String::new(),
        args: String::new(),
        start: String::new(),
        startstr: String::new(),
        version: String::new(),
        xmloutputversion: String::new(),
        host: None,
    };
    assert!(extract_open_ports(&run).is_empty());
}

#[test]
fn default_resolution_record_is_empty() {
    let d = ResolvData::default();
    assert_eq!(d.ip, "");
    assert!(d.ports_data.is_empty());
}

#[test]
fn scan_args_carry_every_option() {
    let args = build_scan_args(
        &"1.1.1.1,8.8.8.8".to_string(),
        &"logs/10.0.0.5.xml".to_string(),
        &"10.0.0.5".to_string(),
        &"1000".to_string(),
        &"80,443".to_string(),
        false,
    );
    let expected: Vec<String> = [
        "nmap", "--dns-servers", "1.1.1.1,8.8.8.8", "-Pn", "-sS", "--open", "-dd", "-T4",
        "--max-retries", "3", "-oX", "logs/10.0.0.5.xml", "--min-rate", "1000", "-sV", "-p",
        "80,443", "10.0.0.5",
    ]
    .iter()
    .map(|s| s.to_string())
    .collect();
    assert_eq!(args, expected);
}

#[test]
fn fast_scan_args_use_host_timeout_instead_of_service_probe() {
    let args = build_scan_args(
        &"1.1.1.1".to_string(),
        &"logs/10.0.0.5.xml".to_string(),
        &"10.0.0.5".to_string(),
        &String::new(),
        &String::new(),
        true,
    );
    let expected: Vec<String> = [
        "nmap", "--dns-servers", "1.1.1.1", "-Pn", "-sS", "--open", "-dd", "-T4",
        "--max-retries", "3", "-oX", "logs/10.0.0.5.xml", "--host-timeout", "20m", "10.0.0.5",
    ]
    .iter()
    .map(|s| s.to_string())
    .collect();
    assert_eq!(args, expected);
}

#[test]
fn port_ids_projects_identifiers_in_order() {
    let ports = vec![port("80", "open", "http"), port("443", "open", "https")];
    assert_eq!(port_ids(&ports), vec!["80".to_string(), "443".to_string()]);
}
