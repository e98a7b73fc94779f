//! Scan client: the structured report tree an engine run produces, the
//! argument list of one engine invocation, and the open-port filter that
//! every retained record must pass.

use vstd::prelude::*;

use crate::errors::PipelineError;
use crate::logic::join_with;

verus! {

/// Root element of a parsed engine report document.
#[derive(Debug, PartialEq, Eq, Hash)]
pub struct Root {
    pub nmaprun: Nmaprun,
}

/// One whole engine run: invocation metadata and the scanned host, if any.
#[derive(Debug, PartialEq, Eq, Hash)]
pub struct Nmaprun {
    pub scanner: String,
    pub args: String,
    pub start: String,
    pub startstr: String,
    pub version: String,
    pub xmloutputversion: String,
    pub host: Option<Host>,
}

/// The scanned host with its status, address and port table.
#[derive(Debug, PartialEq, Eq, Hash)]
pub struct Host {
    pub starttime: String,
    pub endtime: String,
    pub status: Status,
    pub address: Address,
    pub hostnames: Hostnames,
    pub ports: Option<Ports>,
}

/// Reachability status of the scanned host.
#[derive(Debug, PartialEq, Eq, Hash)]
pub struct Status {
    pub state: String,
    pub reason: String,
    pub reason_ttl: String,
}

/// The address the engine scanned.
#[derive(Debug, PartialEq, Eq, Hash)]
pub struct Address {
    pub addr: Option<String>,
    pub addrtype: Option<String>,
}

/// Hostname section of the report.
#[derive(Debug, PartialEq, Eq, Hash)]
pub struct Hostnames {
    pub hostname: Option<Hostname>,
}

/// One hostname the engine associated with the address.
#[derive(Debug, PartialEq, Eq, Hash)]
pub struct Hostname {
    pub name: String,
    pub type_field: String,
}

/// The port table of one host.
#[derive(Debug, PartialEq, Eq, Hash)]
pub struct Ports {
    pub port: Vec<Port>,
}

/// One scanned port: protocol, identifier, state and the detected service.
#[derive(Debug, PartialEq, Eq, Hash)]
pub struct Port {
    pub protocol: String,
    pub portid: String,
    pub state: State,
    pub service: Option<Service>,
}

/// State of one scanned port; only `open` ones survive filtering.
#[derive(Debug, PartialEq, Eq, Hash)]
pub struct State {
    pub state: String,
    pub reason: String,
    pub reason_ttl: String,
}

/// The service detected behind one open port.
#[derive(Debug, PartialEq, Eq, Hash)]
pub struct Service {
    pub name: String,
    pub method: String,
    pub conf: String,
    pub product: Option<String>,
    pub ostype: Option<String>,
    pub version: Option<String>,
    pub extrainfo: Option<String>,
}

impl Clone for State {
    fn clone(&self) -> (res: State)
        ensures
            res == *self,
    {
        State {
            state: self.state.clone(),
            reason: self.reason.clone(),
            reason_ttl: self.reason_ttl.clone(),
        }
    }
}

impl Clone for Service {
    fn clone(&self) -> (res: Service)
        ensures
            res == *self,
    {
        Service {
            name: self.name.clone(),
            method: self.method.clone(),
            conf: self.conf.clone(),
            product: match &self.product {
                Some(s) => Some(s.clone()),
                None => None,
            },
            ostype: match &self.ostype {
                Some(s) => Some(s.clone()),
                None => None,
            },
            version: match &self.version {
                Some(s) => Some(s.clone()),
                None => None,
            },
            extrainfo: match &self.extrainfo {
                Some(s) => Some(s.clone()),
                None => None,
            },
        }
    }
}

impl Clone for Port {
    fn clone(&self) -> (res: Port)
        ensures
            res == *self,
    {
        Port {
            protocol: self.protocol.clone(),
            portid: self.portid.clone(),
            state: self.state.clone(),
            service: match &self.service {
                Some(s) => Some(s.clone()),
                None => None,
            },
        }
    }
}

/// A port record that may be shown to the caller: its state is `open`.
pub open spec fn is_open_port(p: Port) -> bool {
    p.state.state@ == "open"@
}

/// Keeps exactly the ports whose state is `open`, in their given order.
pub fn filter_open_ports(ports: &Vec<Port>) -> (open: Vec<Port>)
    ensures
        open@ == ports@.filter(|p: Port| is_open_port(p)),
{
    let open_label: String = "open".to_owned();
    let mut open: Vec<Port> = Vec::new();
    let ghost pred = |p: Port| is_open_port(p);
    proof {
        reveal(Seq::filter);
        assert(ports@.take(0) =~= Seq::<Port>::empty());
        assert(ports@.take(0).filter(pred) =~= Seq::<Port>::empty());
    }
    let mut i: usize = 0;
    while i < ports.len()
        invariant
            0 <= i <= ports@.len(),
            open_label@ == "open"@,
            open@ == ports@.take(i as int).filter(pred),
            pred == (|p: Port| is_open_port(p)),
        decreases ports@.len() - i,
    {
        proof {
            reveal(Seq::filter);
            assert(ports@.take(i + 1).drop_last() =~= ports@.take(i as int));
            assert(ports@.take(i + 1).last() == ports@[i as int]);
        }
        if ports[i].state.state == open_label {
            let p = ports[i].clone();
            open.push(p);
        }
        i += 1;
    }
    proof {
        assert(ports@.take(ports@.len() as int) =~= ports@);
    }
    open
}

/// The sequence of ports an engine report carries, before any filtering.
pub open spec fn nmaprun_ports(run: Nmaprun) -> Seq<Port> {
    match run.host {
        Some(h) => match h.ports {
            Some(ps) => ps.port@,
            None => Seq::empty(),
        },
        None => Seq::empty(),
    }
}

/// The open ports of one parsed engine report.
pub fn extract_open_ports(run: &Nmaprun) -> (open: Vec<Port>)
    ensures
        open@ == nmaprun_ports(*run).filter(|p: Port| is_open_port(p)),
{
    match &run.host {
        Some(h) => match &h.ports {
            Some(ps) => filter_open_ports(&ps.port),
            None => {
                proof {
                    reveal(Seq::filter);
                }
                Vec::new()
            },
        },
        None => {
            proof {
                reveal(Seq::filter);
            }
            Vec::new()
        },
    }
}

/// The views of a sequence of owned strings.
pub open spec fn views_of(items: Seq<String>) -> Seq<Seq<char>> {
    items.map_values(|s: String| s@)
}

/// The full argument list of one engine invocation against one address:
/// fixed flags, resolver servers for the engine's own lookups, disabled
/// host discovery, timing template, retry bound, report redirection, then
/// the optional rate, mode and port restrictions, and last the host.
pub open spec fn scan_args_spec(
    resolvers: Seq<char>,
    filename: Seq<char>,
    host: Seq<char>,
    min_rate: Seq<char>,
    ports: Seq<char>,
    fast_scan: bool,
) -> Seq<Seq<char>> {
    seq![
        "nmap"@,
        "--dns-servers"@,
        resolvers,
        "-Pn"@,
        "-sS"@,
        "--open"@,
        "-dd"@,
        "-T4"@,
        "--max-retries"@,
        "3"@,
        "-oX"@,
        filename,
    ] + (if min_rate.len() > 0 {
        seq!["--min-rate"@, min_rate]
    } else {
        Seq::<Seq<char>>::empty()
    }) + (if fast_scan {
        seq!["--host-timeout"@, "20m"@]
    } else {
        seq!["-sV"@]
    }) + (if ports.len() > 0 {
        seq!["-p"@, ports]
    } else {
        Seq::<Seq<char>>::empty()
    }) + seq![host]
}

/// Builds the engine invocation for one address, exactly as
/// [`scan_args_spec`] lays it out.
pub fn build_scan_args(
    resolvers: &String,
    filename: &String,
    host: &String,
    min_rate: &String,
    ports: &String,
    fast_scan: bool,
) -> (args: Vec<String>)
    ensures
        views_of(args@) == scan_args_spec(
            resolvers@,
            filename@,
            host@,
            min_rate@,
            ports@,
            fast_scan,
        ),
{
    let mut args: Vec<String> = Vec::new();
    args.push("nmap".to_owned());
    args.push("--dns-servers".to_owned());
    args.push(resolvers.clone());
    args.push("-Pn".to_owned());
    args.push("-sS".to_owned());
    args.push("--open".to_owned());
    args.push("-dd".to_owned());
    args.push("-T4".to_owned());
    args.push("--max-retries".to_owned());
    args.push("3".to_owned());
    args.push("-oX".to_owned());
    args.push(filename.clone());
    if !min_rate.as_str().is_empty() {
        args.push("--min-rate".to_owned());
        args.push(min_rate.clone());
    }
    if fast_scan {
        args.push("--host-timeout".to_owned());
        args.push("20m".to_owned());
    } else {
        args.push("-sV".to_owned());
    }
    if !ports.as_str().is_empty() {
        args.push("-p".to_owned());
        args.push(ports.clone());
    }
    args.push(host.clone());
    proof {
        assert(views_of(args@) =~= scan_args_spec(
            resolvers@,
            filename@,
            host@,
            min_rate@,
            ports@,
            fast_scan,
        ));
    }
    args
}

/// What one scan attempt came back with, as the runner observed it.
#[derive(Debug)]
pub enum ScanEvent {
    /// The engine ran and its report artifact was parsed.
    Parsed(Nmaprun),
    /// The engine binary is absent or may not be invoked at all.
    EngineUnavailable,
    /// The engine process could not be observed to completion.
    WaitFailed,
    /// The engine exited but left no report artifact behind.
    ArtifactMissing,
    /// The report artifact did not parse.
    ParseFailed,
}

/// The open ports one scan event contributes: the filtered report ports
/// of a parsed run, nothing after any per-address failure.
pub open spec fn scan_event_ports(e: ScanEvent) -> Seq<Port> {
    match e {
        ScanEvent::Parsed(run) => nmaprun_ports(run).filter(|p: Port| is_open_port(p)),
        _ => Seq::empty(),
    }
}

/// Decides one scan attempt: a missing engine ends the whole run, since
/// no later scan could succeed either; any other failure is confined to
/// its address and yields no ports; a parsed report keeps exactly its
/// open ports.
pub fn handle_scan_event(event: &ScanEvent) -> (r: Result<Vec<Port>, PipelineError>)
    ensures
        (*event is EngineUnavailable) <==> (r is Err),
        r is Err ==> r->Err_0 == PipelineError::EngineUnavailable,
        r is Ok ==> (r->Ok_0)@ == scan_event_ports(*event),
{
    match event {
        ScanEvent::Parsed(run) => Ok(extract_open_ports(run)),
        ScanEvent::EngineUnavailable => Err(PipelineError::EngineUnavailable),
        ScanEvent::WaitFailed => Ok(Vec::new()),
        ScanEvent::ArtifactMissing => Ok(Vec::new()),
        ScanEvent::ParseFailed => Ok(Vec::new()),
    }
}

/// The port identifiers of a record list, in order, as the report row
/// wants them.
pub fn port_ids(ports: &Vec<Port>) -> (ids: Vec<String>)
    ensures
        ids@.len() == ports@.len(),
        forall|i: int| 0 <= i < ports@.len() ==> (#[trigger] ids@[i])@ == ports@[i].portid@,
{
    let mut ids: Vec<String> = Vec::new();
    let mut i: usize = 0;
    while i < ports.len()
        invariant
            0 <= i <= ports@.len(),
            ids@.len() == i,
            forall|m: int| 0 <= m < i ==> (#[trigger] ids@[m])@ == ports@[m].portid@,
        decreases ports@.len() - i,
    {
        ids.push(ports[i].portid.clone());
        i += 1;
    }
    ids
}

/// The path of the report artifact one scan writes: the working directory,
/// a slash, the address, and the document suffix. Distinct addresses give
/// distinct paths, so concurrent scans never share a file.
pub fn artifact_path(logs_dir: &String, ip: &String) -> (r: String)
    ensures
        r@ == logs_dir@ + "/"@ + ip@ + ".xml"@,
{
    let mut out = logs_dir.clone();
    out.append("/");
    out.append(ip.as_str());
    out.append(".xml");
    out
}

/// The resolver addresses joined by commas, as the engine's resolver
/// argument wants them.
pub fn join_resolvers(resolvers: &Vec<String>) -> (r: String)
    ensures
        r@ == join_with(views_of(resolvers@), ','),
{
    let ghost rviews = views_of(resolvers@);
    if resolvers.len() == 0 {
        String::new()
    } else {
        let mut out = resolvers[0].clone();
        assert(rviews.take(1) =~= seq![rviews[0]]);
        let mut i: usize = 1;
        while i < resolvers.len()
            invariant
                1 <= i <= resolvers@.len(),
                rviews == views_of(resolvers@),
                rviews.len() == resolvers@.len(),
                out@ == join_with(rviews.take(i as int), ','),
            decreases resolvers@.len() - i,
        {
            out.append(",");
            out.append(resolvers[i].as_str());
            proof {
                reveal_strlit(",");
                assert(","@ =~= seq![',']);
                assert(rviews.take(i + 1).drop_last() =~= rviews.take(i as int));
                assert(rviews.take(i + 1).last() == rviews[i as int]);
            }
            i += 1;
        }
        assert(rviews.take(resolvers@.len() as int) =~= rviews);
        out
    }
}

} // verus!
