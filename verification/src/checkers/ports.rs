//! Open network ports.

use vstd::prelude::*;
use vstd::string::StringExecFns;
use crate::parse::{
    decimal_value, fields, fields_of, lemma_split_nonempty, lines, lines_of, parse_bounded,
    split_chars, split_on,
};
use crate::text::{chars_of, contains_chars, decimal, decimal_string, is_substring};
use crate::types::{
    CheckCategory, FixAction, ImpactCategory, Issue, IssueSeverity, PortInfo, ScanContext,
};

verus! {

/// Open network ports.
#[derive(Debug, Clone, Copy)]
pub struct PortScanner;

/// The service that commonly listens on a port, for the ports that the
/// scanner knows by name.
pub open spec fn service_name_of(port: u16) -> Option<Seq<char>> {
    if port == 22 {
        Some("SSH"@)
    } else if port == 23 {
        Some("Telnet"@)
    } else if port == 80 {
        Some("HTTP"@)
    } else if port == 443 {
        Some("HTTPS"@)
    } else if port == 445 {
        Some("SMB"@)
    } else if port == 3389 {
        Some("RDP"@)
    } else if port == 3306 {
        Some("MySQL"@)
    } else if port == 5432 {
        Some("PostgreSQL"@)
    } else if port == 8080 {
        Some("HTTP-Alt"@)
    } else {
        None
    }
}

/// The service that commonly listens on a port.
pub fn get_service_name(port: u16) -> (name: Option<String>)
    ensures
        name is Some <==> service_name_of(port) is Some,
        name matches Some(n) ==> service_name_of(port) == Some(n@),
{
    match port {
        22 => Some("SSH".to_owned()),
        23 => Some("Telnet".to_owned()),
        80 => Some("HTTP".to_owned()),
        443 => Some("HTTPS".to_owned()),
        445 => Some("SMB".to_owned()),
        3389 => Some("RDP".to_owned()),
        3306 => Some("MySQL".to_owned()),
        5432 => Some("PostgreSQL".to_owned()),
        8080 => Some("HTTP-Alt".to_owned()),
        _ => None,
    }
}

/// A port that should not be open to the network: remote shells, remote
/// desktops and file sharing.
pub open spec fn is_risky(port: u16) -> bool {
    port == 22 || port == 23 || port == 139 || port == 445 || port == 3389 || port == 5900
}

/// A port that development tools commonly open.
pub open spec fn is_whitelisted(port: u16) -> bool {
    port == 3000 || port == 5000 || port == 8000 || port == 8080 || port == 5432 || port == 3306
        || port == 6379
}

/// Whether the port should not be open to the network.
pub fn is_risky_port(port_info: &PortInfo) -> (risky: bool)
    ensures
        risky == is_risky(port_info.port),
{
    let port = port_info.port;
    port == 22 || port == 23 || port == 139 || port == 445 || port == 3389 || port == 5900
}

/// Whether the port is one that development tools commonly open.
pub fn is_whitelisted_port(port_info: &PortInfo) -> (whitelisted: bool)
    ensures
        whitelisted == is_whitelisted(port_info.port),
{
    let port = port_info.port;
    port == 3000 || port == 5000 || port == 8000 || port == 8080 || port == 5432 || port == 3306
        || port == 6379
}

/// How severe an open port is: remote access is critical, file sharing a
/// warning, anything else a note.
pub open spec fn port_severity_spec(port: u16) -> IssueSeverity {
    if port == 3389 || port == 22 || port == 23 {
        IssueSeverity::Critical
    } else if port == 445 || port == 139 {
        IssueSeverity::Warning
    } else {
        IssueSeverity::Info
    }
}

/// How severe an open port is.
pub fn port_severity(port: u16) -> (severity: IssueSeverity)
    ensures
        severity == port_severity_spec(port),
{
    if port == 3389 || port == 22 || port == 23 {
        IssueSeverity::Critical
    } else if port == 445 || port == 139 {
        IssueSeverity::Warning
    } else {
        IssueSeverity::Info
    }
}

/// What the user is told about an open port.
pub open spec fn port_description_of(port: u16) -> Seq<char> {
    if port == 3389 {
        "Remote Desktop (RDP) is exposed. This allows remote access to your computer. Close this unless you specifically need remote access."@
    } else if port == 445 || port == 139 {
        "SMB file sharing is exposed. This can allow network access to your files."@
    } else if port == 22 {
        "SSH is open. This allows remote command-line access to your computer."@
    } else if port == 23 {
        "Telnet is open. This is an insecure protocol and should be disabled."@
    } else {
        "Port "@ + decimal(port as nat) + " is open to network connections."@
    }
}

/// What the user is told about an open port.
pub fn get_port_description(port_info: &PortInfo) -> (description: String)
    ensures
        description@ == port_description_of(port_info.port),
{
    let port = port_info.port;
    if port == 3389 {
        "Remote Desktop (RDP) is exposed. This allows remote access to your computer. Close this unless you specifically need remote access.".to_owned()
    } else if port == 445 || port == 139 {
        "SMB file sharing is exposed. This can allow network access to your files.".to_owned()
    } else if port == 22 {
        "SSH is open. This allows remote command-line access to your computer.".to_owned()
    } else if port == 23 {
        "Telnet is open. This is an insecure protocol and should be disabled.".to_owned()
    } else {
        let mut description = "Port ".to_owned();
        description.append(decimal_string(port as u64).as_str());
        description.append(" is open to network connections.");
        description
    }
}

/// The name of the service on the port as the title shows it.
pub open spec fn shown_service(port_info: PortInfo) -> Seq<char> {
    match port_info.service {
        Some(service) => service@,
        None => "Unknown"@,
    }
}

/// `issue` is the issue that an open risky port makes, with `params` as the
/// parameters of its fix.
pub open spec fn is_port_issue(port_info: PortInfo, params: serde_json::Value, issue: Issue) -> bool {
    &&& issue.id@ == "port_open_"@ + decimal(port_info.port as nat)
    &&& issue.severity == port_severity_spec(port_info.port)
    &&& issue.title@ == "Port "@ + decimal(port_info.port as nat) + " ("@ + shown_service(port_info)
        + ") is open"@
    &&& issue.description@ == port_description_of(port_info.port)
    &&& issue.impact_category == ImpactCategory::Security
    &&& issue.fix matches Some(action)
    &&& action.action_id@ == "close_port_"@ + decimal(port_info.port as nat)
    &&& action.label@ == "Close Port"@
    &&& !action.is_auto_fix
    &&& action.params == params
}

/// Ports from this number on are not listed.
pub const PORT_LIMIT: u16 = 10000;

/// The port that a line of the connection listing says is listened on: the
/// number after the last colon of the second field, where the line holds
/// `LISTENING`, has two fields and the number is a port number.
pub open spec fn listening_port_of(line: Seq<char>) -> Option<u16> {
    let f = fields_of(line);
    if is_substring("LISTENING"@, line) && f.len() >= 2 {
        match decimal_value(split_on(f[1], ':').last()) {
            Some(n) => if n <= 65535 {
                Some(n as u16)
            } else {
                None
            },
            None => None,
        }
    } else {
        None
    }
}

/// The ports that the lines of a connection listing say are listened on, in
/// the order listed, each once, and only those below ten thousand.
pub open spec fn listed_ports(lines: Seq<Seq<char>>) -> Seq<u16>
    decreases lines.len(),
{
    if lines.len() == 0 {
        Seq::empty()
    } else {
        let before = listed_ports(lines.drop_last());
        match listening_port_of(lines.last()) {
            Some(port) => if port < PORT_LIMIT && !before.contains(port) {
                before.push(port)
            } else {
                before
            },
            None => before,
        }
    }
}

/// The port of a listed entry.
pub open spec fn port_of() -> spec_fn(PortInfo) -> u16 {
    |info: PortInfo| info.port
}

/// An entry as the scanner lists it: over TCP, with the service that
/// commonly listens on the port, and without a process.
pub open spec fn is_listed_entry(info: PortInfo) -> bool {
    &&& info.protocol@ == "TCP"@
    &&& info.process is None
    &&& info.service is Some <==> service_name_of(info.port) is Some
    &&& info.service matches Some(name) ==> service_name_of(info.port) == Some(name@)
}

impl PortScanner {
    /// The port that a line of the connection listing says is listened on.
    pub fn parse_listening_line(&self, line: &Vec<char>) -> (port: Option<u16>)
        ensures
            port == listening_port_of(line@),
    {
        let marker = chars_of("LISTENING");
        if !contains_chars(line, &marker) {
            return None;
        }
        let f = fields(line);
        if f.len() < 2 {
            return None;
        }
        let pieces = split_chars(&f[1], ':');
        proof {
            lemma_split_nonempty(f@[1]@, ':');
        }
        let last = &pieces[pieces.len() - 1];
        match parse_bounded(last, 65535) {
            Some(n) => Some(n as u16),
            None => None,
        }
    }

    /// The open ports of a connection listing.
    pub fn open_ports_from_listing(&self, listing: &str) -> (ports: Vec<PortInfo>)
        ensures
            ports@.map_values(port_of()) == listed_ports(lines_of(listing@)),
            forall|k: int| 0 <= k < ports@.len() ==> is_listed_entry(#[trigger] ports@[k]),
    {
        let all = lines(listing);
        let ghost texts = lines_of(listing@);
        let mut ports: Vec<PortInfo> = Vec::new();
        let mut i: usize = 0;
        assert(texts.take(0) =~= Seq::<Seq<char>>::empty());
        assert(ports@.map_values(port_of()) =~= listed_ports(texts.take(0)));
        while i < all.len()
            invariant
                i <= all@.len(),
                all@.len() == texts.len(),
                forall|k: int| 0 <= k < all@.len() ==> (#[trigger] all@[k])@ == texts[k],
                ports@.map_values(port_of()) == listed_ports(texts.take(i as int)),
                forall|k: int| 0 <= k < ports@.len() ==> is_listed_entry(#[trigger] ports@[k]),
            decreases all@.len() - i,
        {
            let ghost seen = texts.take(i as int);
            let ghost next = texts.take(i + 1);
            assert(next.drop_last() =~= seen);
            assert(next.last() == texts[i as int]);
            let ghost before = ports@;
            match self.parse_listening_line(&all[i]) {
                Some(port) => {
                    if port < PORT_LIMIT && !Self::lists(&ports, port) {
                        let info = PortInfo {
                            port,
                            protocol: "TCP".to_owned(),
                            service: get_service_name(port),
                            process: None,
                        };
                        ports.push(info);
                        assert(ports@.map_values(port_of()) =~= before.map_values(port_of()).push(
                            port,
                        ));
                    }
                },
                None => {},
            }
            i = i + 1;
        }
        assert(texts.take(texts.len() as int) =~= texts);
        ports
    }

    fn lists(ports: &Vec<PortInfo>, port: u16) -> (found: bool)
        ensures
            found == ports@.map_values(port_of()).contains(port),
    {
        let mut i: usize = 0;
        while i < ports.len()
            invariant
                i <= ports@.len(),
                forall|k: int| 0 <= k < i ==> ports@[k].port != port,
            decreases ports@.len() - i,
        {
            if ports[i].port == port {
                assert(ports@.map_values(port_of())[i as int] == port);
                return true;
            }
            i = i + 1;
        }
        assert forall|k: int| 0 <= k < ports@.map_values(port_of()).len() implies ports@.map_values(
            port_of(),
        )[k] != port by {
            assert(ports@.map_values(port_of())[k] == ports@[k].port);
        }
        false
    }

    /// Identifies the checker.
    pub fn name(&self) -> (name: &'static str)
        ensures
            name@ == "port_scanner"@,
    {
        "port_scanner"
    }

    /// The aspect of the machine that the checker looks at.
    pub fn category(&self) -> (category: CheckCategory)
        ensures
            category == CheckCategory::Security,
    {
        CheckCategory::Security
    }

    /// Whether the scanner looks at the ports at all: a quick scan skips it.
    pub fn applies(&self, context: &ScanContext) -> (applies: bool)
        ensures
            applies == !context.options.quick,
    {
        !context.options.quick
    }

    /// The issue that an open port makes in a scan that looks at ports: one
    /// for a risky port that is not whitelisted, none for any other.
    pub fn issue_for(&self, port_info: &PortInfo, params: serde_json::Value) -> (found: Option<
        Issue,
    >)
        ensures
            found is Some <==> is_risky(port_info.port) && !is_whitelisted(port_info.port),
            found matches Some(issue) ==> is_port_issue(*port_info, params, issue),
    {
        if !is_risky_port(port_info) || is_whitelisted_port(port_info) {
            return None;
        }
        let number = decimal_string(port_info.port as u64);
        let mut id = "port_open_".to_owned();
        id.append(number.as_str());
        let mut title = "Port ".to_owned();
        title.append(number.as_str());
        title.append(" (");
        match &port_info.service {
            Some(service) => title.append(service.as_str()),
            None => title.append("Unknown"),
        }
        title.append(") is open");
        let mut action_id = "close_port_".to_owned();
        action_id.append(number.as_str());
        Some(
            Issue {
                id,
                severity: port_severity(port_info.port),
                title,
                description: get_port_description(port_info),
                impact_category: ImpactCategory::Security,
                fix: Some(
                    FixAction {
                        action_id,
                        label: "Close Port".to_owned(),
                        is_auto_fix: false,
                        params,
                    },
                ),
            },
        )
    }
}

} // verus!
