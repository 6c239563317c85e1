use vstd::prelude::*;

use crate::device::{device_views, DeviceView, ExtronDevice};

verus! {

/// Line speed of the serial link.
pub const BAUD_RATE: u32 = 115200;

/// How long one read on the serial link may wait, in milliseconds.
pub const READ_TIMEOUT_MS: u64 = 100;

/// USB vendor id of the devices this controller drives.
pub const EXTRON_VENDOR_ID: u16 = 0x1ce2;

/// What a serial endpoint is attached through.
#[derive(Debug, Clone)]
pub enum PortKind {
    /// A USB serial device, with its vendor id and the manufacturer string it
    /// reports, if any.
    Usb { vid: u16, manufacturer: Option<String> },
    /// Anything else: a built-in UART, a Bluetooth or PCI port, an unknown one.
    Other,
}

/// A serial endpoint as the operating system lists it.
#[derive(Debug, Clone)]
pub struct PortInfo {
    pub port_name: String,
    pub kind: PortKind,
}

/// The endpoint is a USB port of the expected vendor whose manufacturer string
/// is exactly `Extron`.
pub open spec fn is_extron(p: PortInfo) -> bool {
    match p.kind {
        PortKind::Usb { vid, manufacturer } => vid == EXTRON_VENDOR_ID && match manufacturer {
            Some(m) => m@ == seq!['E', 'x', 't', 'r', 'o', 'n'],
            None => false,
        },
        PortKind::Other => false,
    }
}

/// The paths of the endpoints that qualify, in the order listed.
pub open spec fn candidate_paths(ports: Seq<PortInfo>) -> Seq<Seq<char>>
    decreases ports.len(),
{
    if ports.len() == 0 {
        Seq::empty()
    } else {
        let rest = candidate_paths(ports.drop_last());
        if is_extron(ports.last()) {
            rest.push(ports.last().port_name@)
        } else {
            rest
        }
    }
}

/// `prefix` begins `s`.
pub open spec fn begins_with(s: Seq<char>, prefix: Seq<char>) -> bool {
    prefix.len() <= s.len() && s.subrange(0, prefix.len() as int) == prefix
}

/// The text is exactly `lit`.
fn is_text(s: &String, lit: &str) -> (r: bool)
    ensures
        r == (s@ == lit@),
{
    let t = String::from_str(lit);
    *s == t
}

/// Whether `s` begins with `prefix`.
pub fn starts_with(s: &str, prefix: &str) -> (r: bool)
    ensures
        r == begins_with(s@, prefix@),
{
    let n = prefix.unicode_len();
    let m = s.unicode_len();
    if n > m {
        return false;
    }
    let mut i: usize = 0;
    while i < n
        invariant
            n == prefix@.len(),
            m == s@.len(),
            n <= m,
            i <= n,
            forall|k: int| 0 <= k < i ==> s@[k] == prefix@[k],
        decreases n - i,
    {
        if s.get_char(i) != prefix.get_char(i) {
            assert(s@.subrange(0, n as int)[i as int] != prefix@[i as int]);
            return false;
        }
        i += 1;
    }
    assert(s@.subrange(0, n as int) =~= prefix@);
    true
}

/// Whether `port` is one of the devices this controller drives.
pub fn is_extron_port(port: &PortInfo) -> (r: bool)
    ensures
        r == is_extron(*port),
{
    proof {
        reveal_strlit("Extron");
    }
    match &port.kind {
        PortKind::Usb { vid, manufacturer } => {
            if *vid != EXTRON_VENDOR_ID {
                return false;
            }
            match manufacturer {
                Some(m) => {
                    let r = is_text(m, "Extron");
                    assert("Extron"@ =~= seq!['E', 'x', 't', 'r', 'o', 'n']);
                    r
                },
                None => false,
            }
        },
        PortKind::Other => false,
    }
}

/// The paths of the listed endpoints that are devices of ours, in the order
/// listed.
pub fn extron_candidates(ports: &Vec<PortInfo>) -> (r: Vec<String>)
    ensures
        r@.map_values(|p: String| p@) == candidate_paths(ports@),
{
    let mut out: Vec<String> = Vec::new();
    let mut i: usize = 0;
    while i < ports.len()
        invariant
            i <= ports.len(),
            out@.map_values(|p: String| p@) == candidate_paths(ports@.subrange(0, i as int)),
        decreases ports.len() - i,
    {
        proof {
            let p = ports@.subrange(0, i as int + 1);
            assert(p.drop_last() =~= ports@.subrange(0, i as int));
            assert(p.last() == ports@[i as int]);
        }
        let ghost before = out@;
        if is_extron_port(&ports[i]) {
            out.push(ports[i].port_name.clone());
            assert(out@.map_values(|p: String| p@) =~= before.map_values(|p: String| p@).push(
                ports@[i as int].port_name@,
            ));
        }
        i += 1;
    }
    assert(ports@.subrange(0, ports.len() as int) =~= ports@);
    out
}

/// The control sequence that asks a device for its name: escape, `CN`,
/// carriage return.
pub fn name_query() -> (r: Vec<u8>)
    ensures
        r@ == seq![0x1bu8, 0x43u8, 0x4eu8, 0x0du8],
{
    let mut r: Vec<u8> = Vec::new();
    r.push(0x1b);
    r.push(0x43);
    r.push(0x4e);
    r.push(0x0d);
    r
}

/// What one endpoint gave when asked for its name: the raw line it answered,
/// or nothing where it could not be opened or did not answer in time.
#[derive(Debug, Clone)]
pub struct PortProbe {
    pub device_path: String,
    pub answer: Option<String>,
}

/// The answer to a name query with its trailing whitespace removed.
pub uninterp spec fn trimmed(s: Seq<char>) -> Seq<char>;

/// Relies on `str::trim_end`, which removes the line terminator and any other
/// trailing whitespace, and depends on the text alone.
#[verifier::external_body]
fn trim_answer(s: &str) -> (r: String)
    ensures
        r@ == trimmed(s@),
{
    s.trim_end().to_string()
}

/// The devices that answered, in the order probed, each named by its
/// trimmed answer.
pub open spec fn probed_devices(probes: Seq<PortProbe>) -> Seq<DeviceView>
    decreases probes.len(),
{
    if probes.len() == 0 {
        Seq::empty()
    } else {
        let rest = probed_devices(probes.drop_last());
        let p = probes.last();
        match p.answer {
            Some(a) => rest.push(DeviceView { path: p.device_path@, name: trimmed(a@) }),
            None => rest,
        }
    }
}

/// The devices that answered a name query, in the order probed.
pub fn devices_from_probes(probes: &Vec<PortProbe>) -> (r: Vec<ExtronDevice>)
    ensures
        device_views(r@) == probed_devices(probes@),
{
    let mut out: Vec<ExtronDevice> = Vec::new();
    let mut i: usize = 0;
    while i < probes.len()
        invariant
            i <= probes.len(),
            device_views(out@) == probed_devices(probes@.subrange(0, i as int)),
        decreases probes.len() - i,
    {
        proof {
            let p = probes@.subrange(0, i as int + 1);
            assert(p.drop_last() =~= probes@.subrange(0, i as int));
            assert(p.last() == probes@[i as int]);
        }
        match &probes[i].answer {
            Some(a) => {
                let ghost before = out@;
                let d = ExtronDevice {
                    device_path: probes[i].device_path.clone(),
                    name: trim_answer(a.as_str()),
                };
                out.push(d);
                assert(device_views(out@) =~= device_views(before).push(d@));
            },
            None => {},
        }
        i += 1;
    }
    assert(probes@.subrange(0, probes.len() as int) =~= probes@);
    out
}

/// Why switching an input failed.
#[derive(Debug, Clone)]
pub enum SelectError {
    /// No device of that name is registered.
    DeviceNotFound,
    /// The device rejected the input index.
    InvalidInput,
    /// The device answered with a line that means nothing here; the line.
    UnexpectedResponse(String),
    /// The port could not be opened, written or read; what went wrong.
    Io(String),
}

/// [`SelectError`] with its text as a sequence of characters.
pub enum SelectErrorView {
    DeviceNotFound,
    InvalidInput,
    UnexpectedResponse(Seq<char>),
    Io(Seq<char>),
}

impl View for SelectError {
    type V = SelectErrorView;

    open spec fn view(&self) -> SelectErrorView {
        match self {
            SelectError::DeviceNotFound => SelectErrorView::DeviceNotFound,
            SelectError::InvalidInput => SelectErrorView::InvalidInput,
            SelectError::UnexpectedResponse(l) => SelectErrorView::UnexpectedResponse(l@),
            SelectError::Io(m) => SelectErrorView::Io(m@),
        }
    }
}

/// The outcome of a selection, with the error seen through its view.
pub open spec fn outcome_view(r: Result<(), SelectError>) -> Result<(), SelectErrorView> {
    match r {
        Ok(()) => Ok(()),
        Err(e) => Err(e@),
    }
}

/// The prefix of a line by which a device rejects a command.
pub open spec fn error_prefix() -> Seq<char> {
    seq!['E', '0', '1']
}

/// The line by which a device confirms that `input` now feeds every output.
pub open spec fn echo_of(input: Seq<char>) -> Seq<char> {
    seq!['I', 'n'] + input + seq!['A', 'l', 'l']
}

/// The command that switches to `input`.
pub open spec fn command_of(input: Seq<char>) -> Seq<char> {
    input.push('!')
}

/// What the first line a device answers to a select command means.
pub open spec fn line_outcome(line: Seq<char>, input: Seq<char>) -> Result<(), SelectErrorView> {
    if begins_with(line, error_prefix()) {
        Err(SelectErrorView::InvalidInput)
    } else if begins_with(line, echo_of(input)) {
        Ok(())
    } else {
        Err(SelectErrorView::UnexpectedResponse(line))
    }
}

/// The select command for `input`: the input followed by `!`.
pub fn select_command(input: &str) -> (r: String)
    ensures
        r@ == command_of(input@),
{
    proof {
        reveal_strlit("!");
    }
    let mut r = String::from_str(input);
    r.append("!");
    assert(r@ =~= command_of(input@));
    r
}

/// The confirmation a device sends once it switched to `input`.
pub fn select_echo(input: &str) -> (r: String)
    ensures
        r@ == echo_of(input@),
{
    proof {
        reveal_strlit("In");
        reveal_strlit("All");
    }
    let mut r = String::from_str("In");
    r.append(input);
    r.append("All");
    assert(r@ =~= echo_of(input@));
    r
}

/// What the first line a device answered to the select command for `input`
/// means: a rejection, the expected confirmation, or anything else.
pub fn select_outcome(line: &str, input: &str) -> (r: Result<(), SelectError>)
    ensures
        outcome_view(r) == line_outcome(line@, input@),
{
    proof {
        reveal_strlit("E01");
    }
    assert("E01"@ =~= error_prefix());
    if starts_with(line, "E01") {
        return Err(SelectError::InvalidInput);
    }
    let echo = select_echo(input);
    if starts_with(line, echo.as_str()) {
        Ok(())
    } else {
        Err(SelectError::UnexpectedResponse(String::from_str(line)))
    }
}

} // verus!
