//! The display modes. Each mode is a state machine: its step function takes
//! the reply to the previous action and gives the next action (write a
//! command, sleep, read a system figure, ...). The caller performs the
//! action and hands back what it observed.

use vstd::prelude::*;

use crate::command::{bar_spec, clear_spec, text_spec, bar_command, text_command};
use crate::config::{NetConf, PartConf};
use crate::text::{append_char, append_decimal, decimal_spec};
use crate::util::{clear, color_spec, get_color, get_partition_usage, usage_text_spec};

verus! {

/// What to refresh in the system-information snapshot.
#[derive(Clone, Copy, Debug, PartialEq, Eq)]
pub enum Refresh {
    All,
    Memory,
    Networks,
}

/// Why a mode gave up.
#[derive(Clone, Copy, Debug, PartialEq, Eq)]
pub enum Fault {
    /// The reply did not answer the action that was asked for.
    UnexpectedReply,
    /// The bit count of an interface does not fit in 64 bits.
    BandwidthOverflow,
    /// The `df` output has no usage field that can be read.
    UnreadableUsage,
}

/// A percentage as measured: `hundredths` is the measured fraction of one
/// times 100, rounded toward zero, and `text` is how that fraction is shown.
#[derive(Debug)]
pub struct Reading {
    pub hundredths: i64,
    pub text: String,
}

/// The counters of one network interface.
#[derive(Debug)]
pub struct NetSample {
    pub name: String,
    pub received: u64,
    pub transmitted: u64,
}

/// What the caller is asked to do next.
#[derive(Debug)]
pub enum Action {
    /// Refresh the system-information snapshot.
    Refresh(Refresh),
    /// Sleep for this many milliseconds.
    Sleep(u64),
    /// Write this command to the display.
    Send(String),
    /// Reply with the host name and kernel version.
    ReadHostKernel,
    /// Reply with the uptime in seconds.
    ReadUptime,
    /// Measure the busy fraction of the CPU over this many milliseconds.
    SampleCpu(u64),
    /// Reply with the memory figures.
    ReadMemory,
    /// Reply with the counters of every network interface.
    ReadNetworks,
    /// Reply with `bits` as a fraction of `top_speed_bps`, and with `bits` in
    /// megabits as text.
    Rate { bits: u64, top_speed_bps: u64 },
    /// Run `df` on this partition path and reply with its output.
    RunDf(String),
    /// Reply with this decimal text read as a fraction.
    ParseUsage(String),
    /// Stop: the mode cannot go on.
    Abort(Fault),
    /// The mode has finished.
    Done,
}

/// What the caller observed while performing the last action.
#[derive(Debug)]
pub enum Event {
    /// The action was performed; there is nothing to report.
    Ready,
    HostKernel { host: Option<String>, kernel: Option<String> },
    Uptime(u64),
    Fraction(Reading),
    Memory { total: u64, used: u64, percent: Reading },
    Networks(Vec<NetSample>),
    Rate { percent: Reading, mbps: String },
    DfOutput(String),
}

/// An action with its strings seen as character sequences.
pub enum ActionView {
    Refresh(Refresh),
    Sleep(u64),
    Send(Seq<char>),
    ReadHostKernel,
    ReadUptime,
    SampleCpu(u64),
    ReadMemory,
    ReadNetworks,
    Rate { bits: u64, top_speed_bps: u64 },
    RunDf(Seq<char>),
    ParseUsage(Seq<char>),
    Abort(Fault),
    Done,
}

impl View for Action {
    type V = ActionView;

    open spec fn view(&self) -> ActionView {
        match self {
            Action::Refresh(r) => ActionView::Refresh(*r),
            Action::Sleep(ms) => ActionView::Sleep(*ms),
            Action::Send(s) => ActionView::Send(s@),
            Action::ReadHostKernel => ActionView::ReadHostKernel,
            Action::ReadUptime => ActionView::ReadUptime,
            Action::SampleCpu(ms) => ActionView::SampleCpu(*ms),
            Action::ReadMemory => ActionView::ReadMemory,
            Action::ReadNetworks => ActionView::ReadNetworks,
            Action::Rate { bits, top_speed_bps } => ActionView::Rate {
                bits: *bits,
                top_speed_bps: *top_speed_bps,
            },
            Action::RunDf(s) => ActionView::RunDf(s@),
            Action::ParseUsage(s) => ActionView::ParseUsage(s@),
            Action::Abort(f) => ActionView::Abort(*f),
            Action::Done => ActionView::Done,
        }
    }
}

fn send(cmd: String) -> (a: Action)
    ensures
        a@ == ActionView::Send(cmd@),
{
    Action::Send(cmd)
}

// ---------------------------------------------------------------------------
// Host name and kernel version

/// The text shown by the host screen: host name and kernel version, an
/// absent one shown as empty.
pub open spec fn host_kernel_text_spec(host: Option<String>, kernel: Option<String>) -> Seq<char> {
    let h = match host {
        Some(h) => h@,
        None => Seq::empty(),
    };
    let k = match kernel {
        Some(k) => k@,
        None => Seq::empty(),
    };
    h + seq![' '] + k
}

/// The host screen: `stage` counts the actions given so far.
#[derive(Debug)]
pub struct HostKernelRun {
    pub stage: u64,
}

impl HostKernelRun {
    pub fn new() -> (run: Self)
        ensures
            run.stage == 0,
    {
        HostKernelRun { stage: 0 }
    }
}

/// The action that the host screen gives in `run` on `event`.
pub open spec fn host_kernel_action(run: HostKernelRun, event: Event) -> ActionView {
    if run.stage == 0 {
        ActionView::Refresh(Refresh::All)
    } else if run.stage == 1 || run.stage == 3 {
        ActionView::Sleep(100)
    } else if run.stage == 2 {
        ActionView::Send(clear_spec())
    } else if run.stage == 4 {
        ActionView::ReadHostKernel
    } else if run.stage == 5 {
        match event {
            Event::HostKernel { host, kernel } => ActionView::Send(
                text_spec('g', host_kernel_text_spec(host, kernel)),
            ),
            _ => ActionView::Abort(Fault::UnexpectedReply),
        }
    } else if run.stage == 6 {
        ActionView::Sleep(10000)
    } else {
        ActionView::Done
    }
}

/// The state of the host screen after `run` handles `event`.
pub open spec fn host_kernel_next(run: HostKernelRun, event: Event) -> HostKernelRun {
    if run.stage >= 7 || (run.stage == 5 && !(event is HostKernel)) {
        run
    } else {
        HostKernelRun { stage: (run.stage + 1) as u64 }
    }
}

/// One step of the host screen: refresh, clear the display, show the host
/// name and kernel version in green for ten seconds.
pub fn do_hostname_kernel(run: &mut HostKernelRun, event: Event) -> (action: Action)
    ensures
        action@ == host_kernel_action(*old(run), event),
        *final(run) == host_kernel_next(*old(run), event),
{
    let stage: u64 = run.stage;
    if stage >= 7 {
        return Action::Done;
    }
    let action = if stage == 0 {
        Action::Refresh(Refresh::All)
    } else if stage == 1 || stage == 3 {
        Action::Sleep(100)
    } else if stage == 2 {
        send(clear())
    } else if stage == 4 {
        Action::ReadHostKernel
    } else if stage == 5 {
        match event {
            Event::HostKernel { host, kernel } => {
                let mut line = String::new();
                match host {
                    Some(h) => line.append(h.as_str()),
                    None => {},
                }
                append_char(&mut line, ' ');
                match kernel {
                    Some(k) => line.append(k.as_str()),
                    None => {},
                }
                assert(line@ =~= host_kernel_text_spec(host, kernel));
                send(text_command('g', line.as_str()))
            },
            _ => {
                return Action::Abort(Fault::UnexpectedReply);
            },
        }
    } else {
        Action::Sleep(10000)
    };
    run.stage = stage + 1;
    action
}

// ---------------------------------------------------------------------------
// Uptime

/// An uptime in seconds as whole days, and the hours, minutes and seconds
/// left over.
pub open spec fn uptime_parts_spec(uptime: nat) -> (nat, nat, nat, nat) {
    (uptime / 86400, (uptime / 3600) % 24, (uptime / 60) % 60, uptime % 60)
}

/// Splits an uptime in seconds into days, hours, minutes and seconds.
pub fn uptime_parts(uptime: u64) -> (parts: (u64, u64, u64, u64))
    ensures
        (parts.0 as nat, parts.1 as nat, parts.2 as nat, parts.3 as nat) == uptime_parts_spec(
            uptime as nat,
        ),
{
    let seconds: u64 = uptime % 60;
    let minutes: u64 = uptime / 60;
    let hours: u64 = minutes / 60;
    let days: u64 = hours / 24;
    proof {
        vstd::arithmetic::div_mod::lemma_div_denominator(uptime as int, 60, 60);
        vstd::arithmetic::div_mod::lemma_div_denominator(uptime as int, 3600, 24);
        vstd::arithmetic::div_mod::lemma_fundamental_div_mod(minutes as int, 60);
        vstd::arithmetic::div_mod::lemma_fundamental_div_mod(hours as int, 24);
    }
    let minutes_remainder: u64 = (uptime / 60) - (hours * 60);
    let hours_remainder: u64 = (minutes / 60) - (days * 24);
    (days, hours_remainder, minutes_remainder, seconds)
}

/// Days, hours, minutes and seconds put back together give the uptime, and
/// the hours, minutes and seconds are below a day, an hour and a minute.
pub proof fn uptime_parts_recombine(uptime: nat)
    ensures
        ({
            let (d, h, m, s) = uptime_parts_spec(uptime);
            &&& d * 86400 + h * 3600 + m * 60 + s == uptime
            &&& h < 24
            &&& m < 60
            &&& s < 60
        }),
{
    let u: int = uptime as int;
    vstd::arithmetic::div_mod::lemma_fundamental_div_mod(u, 60);
    vstd::arithmetic::div_mod::lemma_div_denominator(u, 60, 60);
    vstd::arithmetic::div_mod::lemma_fundamental_div_mod(u / 60, 60);
    vstd::arithmetic::div_mod::lemma_div_denominator(u, 3600, 24);
    vstd::arithmetic::div_mod::lemma_fundamental_div_mod(u / 3600, 24);
    assert(u == 60 * (u / 60) + u % 60);
    assert(u / 60 == 60 * (u / 3600) + (u / 60) % 60);
    assert(u / 3600 == 24 * (u / 86400) + (u / 3600) % 24);
    assert(u / 86400 * 86400 + (u / 3600) % 24 * 3600 + (u / 60) % 60 * 60 + u % 60 == u)
        by (nonlinear_arith)
        requires
            u == 60 * (u / 60) + u % 60,
            u / 60 == 60 * (u / 3600) + (u / 60) % 60,
            u / 3600 == 24 * (u / 86400) + (u / 3600) % 24,
    ;
}

/// The text of the uptime screen: `Uptime: <d>d <h>h <m>m <s>s`.
pub open spec fn uptime_text_spec(uptime: nat) -> Seq<char> {
    let (d, h, m, s) = uptime_parts_spec(uptime);
    "Uptime: "@ + decimal_spec(d) + seq!['d', ' '] + decimal_spec(h) + seq!['h', ' ']
        + decimal_spec(m) + seq!['m', ' '] + decimal_spec(s) + seq!['s']
}

/// The command that shows an uptime in seconds.
pub fn uptime_command(uptime: u64) -> (cmd: String)
    ensures
        cmd@ == text_spec('g', uptime_text_spec(uptime as nat)),
{
    let (days, hours, minutes, seconds) = uptime_parts(uptime);
    let mut line = String::new();
    line.append("Uptime: ");
    append_decimal(&mut line, days);
    append_char(&mut line, 'd');
    append_char(&mut line, ' ');
    append_decimal(&mut line, hours);
    append_char(&mut line, 'h');
    append_char(&mut line, ' ');
    append_decimal(&mut line, minutes);
    append_char(&mut line, 'm');
    append_char(&mut line, ' ');
    append_decimal(&mut line, seconds);
    append_char(&mut line, 's');
    assert(line@ =~= uptime_text_spec(uptime as nat));
    text_command('g', line.as_str())
}

/// The uptime screen: after the opening actions (`stage` below 4), it reads
/// and shows the uptime once a second; `round` counts the uptimes shown.
#[derive(Debug)]
pub struct UptimeRun {
    pub stage: u64,
    pub round: u64,
}

impl UptimeRun {
    pub fn new() -> (run: Self)
        ensures
            run.stage == 0,
            run.round == 0,
    {
        UptimeRun { stage: 0, round: 0 }
    }
}

/// How many times the uptime screen shows the uptime.
pub open spec fn uptime_rounds() -> u64 {
    10
}

/// The action that the uptime screen gives in `run` on `event`.
pub open spec fn uptime_action(run: UptimeRun, event: Event) -> ActionView {
    if run.stage == 0 {
        ActionView::Refresh(Refresh::All)
    } else if run.stage == 1 || run.stage == 3 {
        ActionView::Sleep(100)
    } else if run.stage == 2 {
        ActionView::Send(clear_spec())
    } else if run.stage == 4 && run.round < uptime_rounds() {
        ActionView::ReadUptime
    } else if run.stage == 5 && run.round < uptime_rounds() {
        match event {
            Event::Uptime(u) => ActionView::Send(text_spec('g', uptime_text_spec(u as nat))),
            _ => ActionView::Abort(Fault::UnexpectedReply),
        }
    } else if run.stage == 6 && run.round < uptime_rounds() {
        ActionView::Sleep(1000)
    } else {
        ActionView::Done
    }
}

/// The state of the uptime screen after `run` handles `event`.
pub open spec fn uptime_next(run: UptimeRun, event: Event) -> UptimeRun {
    if run.stage < 4 {
        UptimeRun { stage: (run.stage + 1) as u64, round: run.round }
    } else if run.stage == 4 && run.round < uptime_rounds() {
        UptimeRun { stage: 5, round: run.round }
    } else if run.stage == 5 && run.round < uptime_rounds() && event is Uptime {
        UptimeRun { stage: 6, round: run.round }
    } else if run.stage == 6 && run.round < uptime_rounds() {
        UptimeRun { stage: 4, round: (run.round + 1) as u64 }
    } else {
        run
    }
}

/// One step of the uptime screen: refresh, clear the display, then ten
/// times read the uptime, show it in green, and wait a second.
pub fn do_uptime(run: &mut UptimeRun, event: Event) -> (action: Action)
    ensures
        action@ == uptime_action(*old(run), event),
        *final(run) == uptime_next(*old(run), event),
{
    let stage: u64 = run.stage;
    if stage < 4 {
        run.stage = stage + 1;
        return if stage == 0 {
            Action::Refresh(Refresh::All)
        } else if stage == 2 {
            send(clear())
        } else {
            Action::Sleep(100)
        };
    }
    if run.round >= 10 {
        return Action::Done;
    }
    if stage == 4 {
        run.stage = 5;
        Action::ReadUptime
    } else if stage == 5 {
        match event {
            Event::Uptime(u) => {
                run.stage = 6;
                send(uptime_command(u))
            },
            _ => Action::Abort(Fault::UnexpectedReply),
        }
    } else if stage == 6 {
        run.stage = 4;
        run.round = run.round + 1;
        Action::Sleep(1000)
    } else {
        Action::Done
    }
}

// ---------------------------------------------------------------------------
// CPU

/// The text of the CPU screen's title.
pub open spec fn cpu_title_spec() -> Seq<char> {
    "CPU Usage"@
}

/// The command that draws a reading on the bar, in the colour of its value.
pub fn reading_bar(reading: &Reading) -> (cmd: String)
    ensures
        cmd@ == bar_spec(color_spec(reading.hundredths as int), reading.text@),
{
    bar_command(get_color(reading.hundredths), reading.text.as_str())
}

/// The CPU screen: after the opening actions (`stage` below 3), it measures
/// the CPU and draws the reading; `round` counts the readings drawn.
#[derive(Debug)]
pub struct CpuRun {
    pub stage: u64,
    pub round: u64,
}

impl CpuRun {
    pub fn new() -> (run: Self)
        ensures
            run.stage == 0,
            run.round == 0,
    {
        CpuRun { stage: 0, round: 0 }
    }
}

/// How many readings the CPU screen draws.
pub open spec fn cpu_rounds() -> u64 {
    100
}

/// The action that the CPU screen gives in `run` on `event`.
pub open spec fn cpu_action(run: CpuRun, event: Event) -> ActionView {
    if run.stage == 0 {
        ActionView::Send(clear_spec())
    } else if run.stage == 1 {
        ActionView::Sleep(100)
    } else if run.stage == 2 {
        ActionView::Send(text_spec('g', cpu_title_spec()))
    } else if run.stage == 3 && run.round < cpu_rounds() {
        ActionView::SampleCpu(100)
    } else if run.stage == 4 && run.round < cpu_rounds() {
        match event {
            Event::Fraction(r) => ActionView::Send(bar_spec(color_spec(r.hundredths as int), r.text@)),
            _ => ActionView::Abort(Fault::UnexpectedReply),
        }
    } else {
        ActionView::Done
    }
}

/// The state of the CPU screen after `run` handles `event`.
pub open spec fn cpu_next(run: CpuRun, event: Event) -> CpuRun {
    if run.stage < 3 {
        CpuRun { stage: (run.stage + 1) as u64, round: run.round }
    } else if run.stage == 3 && run.round < cpu_rounds() {
        CpuRun { stage: 4, round: run.round }
    } else if run.stage == 4 && run.round < cpu_rounds() && event is Fraction {
        CpuRun { stage: 3, round: (run.round + 1) as u64 }
    } else {
        run
    }
}

/// One step of the CPU screen: clear the display, show the title in green,
/// then a hundred times measure the CPU's busy fraction over 100 ms and draw
/// it on the bar.
pub fn do_cpu_utilization(run: &mut CpuRun, event: Event) -> (action: Action)
    ensures
        action@ == cpu_action(*old(run), event),
        *final(run) == cpu_next(*old(run), event),
{
    let stage: u64 = run.stage;
    if stage < 3 {
        run.stage = stage + 1;
        return if stage == 0 {
            send(clear())
        } else if stage == 1 {
            Action::Sleep(100)
        } else {
            send(text_command('g', "CPU Usage"))
        };
    }
    if run.round >= 100 {
        return Action::Done;
    }
    if stage == 3 {
        run.stage = 4;
        Action::SampleCpu(100)
    } else if stage == 4 {
        match event {
            Event::Fraction(r) => {
                run.stage = 3;
                run.round = run.round + 1;
                send(reading_bar(&r))
            },
            _ => Action::Abort(Fault::UnexpectedReply),
        }
    } else {
        Action::Done
    }
}

// ---------------------------------------------------------------------------
// Memory

/// The text of the memory screen: `Memory <used>/<total>MB`, both figures
/// divided by 1000.
pub open spec fn memory_text_spec(used: nat, total: nat) -> Seq<char> {
    "Memory "@ + decimal_spec(used / 1000) + seq!['/'] + decimal_spec(total / 1000) + "MB"@
}

/// The text of the memory screen.
pub fn memory_text(used: u64, total: u64) -> (text: String)
    ensures
        text@ == memory_text_spec(used as nat, total as nat),
{
    let mut line = String::new();
    line.append("Memory ");
    append_decimal(&mut line, used / 1000);
    append_char(&mut line, '/');
    append_decimal(&mut line, total / 1000);
    line.append("MB");
    line
}

/// The memory screen: after the opening actions (`stage` below 2), each
/// round refreshes, reads, and shows the memory figures; `round` counts the
/// rounds done, and `color`, `used` and `total` keep the last reading.
#[derive(Debug)]
pub struct MemoryRun {
    pub stage: u64,
    pub round: u64,
    pub color: char,
    pub used: u64,
    pub total: u64,
}

impl MemoryRun {
    pub fn new() -> (run: Self)
        ensures
            run == (MemoryRun { stage: 0, round: 0, color: 'g', used: 0, total: 0 }),
    {
        MemoryRun { stage: 0, round: 0, color: 'g', used: 0, total: 0 }
    }
}

/// How many rounds the memory screen does.
pub open spec fn memory_rounds() -> u64 {
    20
}

/// The action that the memory screen gives in `run` on `event`.
pub open spec fn memory_action(run: MemoryRun, event: Event) -> ActionView {
    if run.stage == 0 {
        ActionView::Send(clear_spec())
    } else if run.stage == 1 {
        ActionView::Sleep(100)
    } else if run.round >= memory_rounds() {
        ActionView::Done
    } else if run.stage == 2 {
        ActionView::Refresh(Refresh::Memory)
    } else if run.stage == 3 {
        ActionView::ReadMemory
    } else if run.stage == 4 {
        match event {
            Event::Memory { total, used, percent } => ActionView::Send(
                bar_spec(color_spec(percent.hundredths as int), percent.text@),
            ),
            _ => ActionView::Abort(Fault::UnexpectedReply),
        }
    } else if run.stage == 5 {
        ActionView::Sleep(100)
    } else if run.stage == 6 {
        ActionView::Send(text_spec(run.color, memory_text_spec(run.used as nat, run.total as nat)))
    } else if run.stage == 7 {
        ActionView::Sleep(400)
    } else {
        ActionView::Done
    }
}

/// The state of the memory screen after `run` handles `event`.
pub open spec fn memory_next(run: MemoryRun, event: Event) -> MemoryRun {
    if run.stage < 2 {
        MemoryRun { stage: (run.stage + 1) as u64, ..run }
    } else if run.round >= memory_rounds() || run.stage > 7 {
        run
    } else if run.stage == 4 {
        match event {
            Event::Memory { total, used, percent } => MemoryRun {
                stage: 5,
                color: color_spec(percent.hundredths as int),
                used: used,
                total: total,
                ..run
            },
            _ => run,
        }
    } else if run.stage == 7 {
        MemoryRun { stage: 2, round: (run.round + 1) as u64, ..run }
    } else {
        MemoryRun { stage: (run.stage + 1) as u64, ..run }
    }
}

/// One step of the memory screen: clear the display, then twenty times
/// refresh the memory figures, draw the used fraction on the bar, and show
/// used and total memory in the bar's colour.
pub fn do_memory_utilization(run: &mut MemoryRun, event: Event) -> (action: Action)
    ensures
        action@ == memory_action(*old(run), event),
        *final(run) == memory_next(*old(run), event),
{
    let stage: u64 = run.stage;
    if stage < 2 {
        run.stage = stage + 1;
        return if stage == 0 {
            send(clear())
        } else {
            Action::Sleep(100)
        };
    }
    if run.round >= 20 || stage > 7 {
        return Action::Done;
    }
    if stage == 4 {
        match event {
            Event::Memory { total, used, percent } => {
                run.stage = 5;
                run.color = get_color(percent.hundredths);
                run.used = used;
                run.total = total;
                send(reading_bar(&percent))
            },
            _ => Action::Abort(Fault::UnexpectedReply),
        }
    } else if stage == 7 {
        run.stage = 2;
        run.round = run.round + 1;
        Action::Sleep(400)
    } else {
        run.stage = stage + 1;
        if stage == 2 {
            Action::Refresh(Refresh::Memory)
        } else if stage == 3 {
            Action::ReadMemory
        } else if stage == 5 {
            Action::Sleep(100)
        } else {
            let text = memory_text(run.used, run.total);
            send(text_command(run.color, text.as_str()))
        }
    }
}

// ---------------------------------------------------------------------------
// Network

/// Whether some sample of interface `iface` counts more bits than fit in 64
/// bits (received and transmitted bytes times eight, added).
pub open spec fn bandwidth_overflows(samples: Seq<NetSample>, iface: Seq<char>) -> bool {
    exists|i: int|
        0 <= i < samples.len() && #[trigger] samples[i].name@ == iface && samples[i].received * 8
            + samples[i].transmitted * 8 > u64::MAX
}

/// The bits counted on interface `iface`: received and transmitted bytes
/// times eight, from the last sample of that interface; `prev` when no
/// sample is of that interface.
pub open spec fn bandwidth_spec(prev: int, samples: Seq<NetSample>, iface: Seq<char>) -> int
    decreases samples.len(),
{
    if samples.len() == 0 {
        prev
    } else if samples.last().name@ == iface {
        samples.last().received * 8 + samples.last().transmitted * 8
    } else {
        bandwidth_spec(prev, samples.drop_last(), iface)
    }
}

/// The bits counted on interface `iface` in `samples` (see `bandwidth_spec`),
/// or `None` when a sample of that interface counts more than 64 bits hold.
pub fn select_bandwidth(prev: u64, samples: &Vec<NetSample>, iface: &String) -> (bits: Option<u64>)
    ensures
        match bits {
            None => bandwidth_overflows(samples@, iface@),
            Some(b) => !bandwidth_overflows(samples@, iface@) && b == bandwidth_spec(
                prev as int,
                samples@,
                iface@,
            ),
        },
{
    let mut bits: u64 = prev;
    let mut i: usize = 0;
    while i < samples.len()
        invariant
            i <= samples@.len(),
            !bandwidth_overflows(samples@.take(i as int), iface@),
            bits == bandwidth_spec(prev as int, samples@.take(i as int), iface@),
        decreases samples.len() - i,
    {
        let ghost before = samples@.take(i as int);
        assert(samples@.take(i + 1).drop_last() =~= before);
        let sample = &samples[i];
        if sample.name == *iface {
            if sample.received > u64::MAX / 8 || sample.transmitted > u64::MAX / 8
                || sample.received * 8 > u64::MAX - sample.transmitted * 8 {
                assert(samples@[i as int].received * 8 + samples@[i as int].transmitted * 8
                    > u64::MAX);
                assert(bandwidth_overflows(samples@, iface@));
                return None;
            }
            bits = sample.received * 8;
            bits = bits + sample.transmitted * 8;
        }
        i = i + 1;
        assert forall|j: int|
            0 <= j < samples@.take(i as int).len() && #[trigger] samples@.take(
                i as int,
            )[j].name@ == iface@ implies samples@.take(i as int)[j].received * 8
            + samples@.take(i as int)[j].transmitted * 8 <= u64::MAX by {
            if j < i - 1 {
                assert(samples@.take(i as int)[j] == before[j]);
            }
        }
    }
    assert(samples@.take(samples@.len() as int) =~= samples@);
    Some(bits)
}

/// The text of a network screen: `<iface>: <mbps>Mbps`.
pub open spec fn network_text_spec(iface: Seq<char>, mbps: Seq<char>) -> Seq<char> {
    iface + ": "@ + mbps + "Mbps"@
}

/// The network screens, one per interface in `confs`: `conf` is the
/// interface at hand, `stage` the place in its screen, `round` the readings
/// shown for it; `bits` keeps the last bit count, `color` and `mbps` the
/// last reading.
#[derive(Debug)]
pub struct NetworkRun {
    pub confs: Vec<NetConf>,
    pub conf: usize,
    pub stage: u64,
    pub round: u64,
    pub bits: u64,
    pub color: char,
    pub mbps: String,
}

impl NetworkRun {
    pub fn new(confs: Vec<NetConf>) -> (run: Self)
        ensures
            run.confs == confs,
            run.conf == 0,
            run.stage == 0,
            run.round == 0,
    {
        NetworkRun { confs, conf: 0, stage: 0, round: 0, bits: 0, color: 'g', mbps: String::new() }
    }
}

/// How many readings each network screen shows.
pub open spec fn network_rounds() -> u64 {
    10
}

/// The action that the network screens give in `run` on `event`.
pub open spec fn network_action(run: NetworkRun, event: Event) -> ActionView {
    if run.conf >= run.confs.len() || (run.stage >= 6 && run.round >= network_rounds()) {
        ActionView::Done
    } else {
        let conf = run.confs[run.conf as int];
        if run.stage == 0 {
            ActionView::Send(clear_spec())
        } else if run.stage == 1 || run.stage == 4 {
            ActionView::Sleep(100)
        } else if run.stage == 2 {
            ActionView::Send(text_spec('g', conf.interface_name@))
        } else if run.stage == 3 {
            ActionView::Refresh(Refresh::Networks)
        } else if run.stage == 5 {
            if run.round < network_rounds() {
                ActionView::Refresh(Refresh::Networks)
            } else {
                ActionView::Sleep(100)
            }
        } else if run.stage == 6 {
            ActionView::Sleep(900)
        } else if run.stage == 7 {
            ActionView::ReadNetworks
        } else if run.stage == 8 {
            match event {
                Event::Networks(samples) => if bandwidth_overflows(samples@, conf.interface_name@) {
                    ActionView::Abort(Fault::BandwidthOverflow)
                } else {
                    ActionView::Rate {
                        bits: bandwidth_spec(run.bits as int, samples@, conf.interface_name@) as u64,
                        top_speed_bps: conf.top_speed_bps,
                    }
                },
                _ => ActionView::Abort(Fault::UnexpectedReply),
            }
        } else if run.stage == 9 {
            match event {
                Event::Rate { percent, mbps } => ActionView::Send(
                    bar_spec(color_spec(percent.hundredths as int), percent.text@),
                ),
                _ => ActionView::Abort(Fault::UnexpectedReply),
            }
        } else if run.stage == 10 {
            ActionView::Sleep(100)
        } else if run.stage == 11 {
            ActionView::Send(text_spec(run.color, network_text_spec(conf.interface_name@, run.mbps@)))
        } else {
            ActionView::Done
        }
    }
}

/// The state of the network screens after `run` handles `event`.
pub open spec fn network_next(run: NetworkRun, event: Event) -> NetworkRun {
    if run.conf >= run.confs.len() || run.stage > 11 || (run.stage >= 6 && run.round
        >= network_rounds()) {
        run
    } else if run.stage == 2 {
        NetworkRun { stage: 3, bits: 0, ..run }
    } else if run.stage == 4 {
        NetworkRun { stage: 5, round: 0, ..run }
    } else if run.stage == 5 && run.round >= network_rounds() {
        NetworkRun { conf: (run.conf + 1) as usize, stage: 0, round: 0, ..run }
    } else if run.stage == 8 {
        match event {
            Event::Networks(samples) => if bandwidth_overflows(
                samples@,
                run.confs[run.conf as int].interface_name@,
            ) {
                run
            } else {
                NetworkRun {
                    stage: 9,
                    bits: bandwidth_spec(
                        run.bits as int,
                        samples@,
                        run.confs[run.conf as int].interface_name@,
                    ) as u64,
                    ..run
                }
            },
            _ => run,
        }
    } else if run.stage == 9 {
        match event {
            Event::Rate { percent, mbps } => NetworkRun {
                stage: 10,
                color: color_spec(percent.hundredths as int),
                mbps: mbps,
                ..run
            },
            _ => run,
        }
    } else if run.stage == 11 {
        NetworkRun { stage: 5, round: (run.round + 1) as u64, ..run }
    } else {
        NetworkRun { stage: (run.stage + 1) as u64, ..run }
    }
}

/// One step of the network screens. For each configured interface: clear
/// the display, show the interface name in green, refresh the counters and
/// wait 100 ms; then ten times refresh the counters, wait 900 ms, read the
/// bits counted on the interface (the last count is kept when the interface
/// is missing), draw them as a fraction of the top speed on the bar, wait
/// 100 ms, and show them in megabits per second; then wait 100 ms.
pub fn do_network_utilization(run: &mut NetworkRun, event: Event) -> (action: Action)
    ensures
        action@ == network_action(*old(run), event),
        *final(run) == network_next(*old(run), event),
{
    let stage: u64 = run.stage;
    if run.conf >= run.confs.len() || stage > 11 || (stage >= 6 && run.round >= 10) {
        return Action::Done;
    }
    if stage == 8 {
        match event {
            Event::Networks(samples) => {
                match select_bandwidth(run.bits, &samples, &run.confs[run.conf].interface_name) {
                    None => Action::Abort(Fault::BandwidthOverflow),
                    Some(bits) => {
                        run.stage = 9;
                        run.bits = bits;
                        Action::Rate {
                            bits,
                            top_speed_bps: run.confs[run.conf].top_speed_bps,
                        }
                    },
                }
            },
            _ => Action::Abort(Fault::UnexpectedReply),
        }
    } else if stage == 9 {
        match event {
            Event::Rate { percent, mbps } => {
                run.stage = 10;
                run.color = get_color(percent.hundredths);
                run.mbps = mbps;
                send(reading_bar(&percent))
            },
            _ => Action::Abort(Fault::UnexpectedReply),
        }
    } else if stage == 5 {
        if run.round < 10 {
            run.stage = 6;
            Action::Refresh(Refresh::Networks)
        } else {
            run.conf = run.conf + 1;
            run.stage = 0;
            run.round = 0;
            Action::Sleep(100)
        }
    } else if stage == 11 {
        let mut line = String::new();
        line.append(run.confs[run.conf].interface_name.as_str());
        line.append(": ");
        line.append(run.mbps.as_str());
        line.append("Mbps");
        let cmd = text_command(run.color, line.as_str());
        run.stage = 5;
        run.round = run.round + 1;
        send(cmd)
    } else {
        let action = if stage == 0 {
            send(clear())
        } else if stage == 1 || stage == 4 {
            Action::Sleep(100)
        } else if stage == 2 {
            send(text_command('g', run.confs[run.conf].interface_name.as_str()))
        } else if stage == 3 {
            Action::Refresh(Refresh::Networks)
        } else if stage == 6 {
            Action::Sleep(900)
        } else if stage == 7 {
            Action::ReadNetworks
        } else {
            Action::Sleep(100)
        };
        if stage == 2 {
            run.bits = 0;
        }
        if stage == 4 {
            run.round = 0;
        }
        run.stage = stage + 1;
        action
    }
}

// ---------------------------------------------------------------------------
// Partitions

/// The partition screens, one per partition in `confs`: `conf` is the
/// partition at hand, `stage` the place in its screen, and `color` the
/// colour of its last reading.
#[derive(Debug)]
pub struct PartitionRun {
    pub confs: Vec<PartConf>,
    pub conf: usize,
    pub stage: u64,
    pub color: char,
}

impl PartitionRun {
    pub fn new(confs: Vec<PartConf>) -> (run: Self)
        ensures
            run.confs == confs,
            run.conf == 0,
            run.stage == 0,
    {
        PartitionRun { confs, conf: 0, stage: 0, color: 'g' }
    }
}

/// The action that the partition screens give in `run` on `event`.
pub open spec fn partition_action(run: PartitionRun, event: Event) -> ActionView {
    if run.conf >= run.confs.len() {
        ActionView::Done
    } else {
        let conf = run.confs[run.conf as int];
        if run.stage == 0 {
            ActionView::Send(clear_spec())
        } else if run.stage == 1 || run.stage == 5 {
            ActionView::Sleep(100)
        } else if run.stage == 2 {
            ActionView::RunDf(conf.partition_path@)
        } else if run.stage == 3 {
            match event {
                Event::DfOutput(out) => match usage_text_spec(out@) {
                    None => ActionView::Abort(Fault::UnreadableUsage),
                    Some(t) => ActionView::ParseUsage(t),
                },
                _ => ActionView::Abort(Fault::UnexpectedReply),
            }
        } else if run.stage == 4 {
            match event {
                Event::Fraction(r) => ActionView::Send(bar_spec(color_spec(r.hundredths as int), r.text@)),
                _ => ActionView::Abort(Fault::UnexpectedReply),
            }
        } else if run.stage == 6 {
            ActionView::Send(text_spec(run.color, conf.partition_name@))
        } else if run.stage == 7 {
            ActionView::Sleep(10000)
        } else {
            ActionView::Done
        }
    }
}

/// The state of the partition screens after `run` handles `event`.
pub open spec fn partition_next(run: PartitionRun, event: Event) -> PartitionRun {
    if run.conf >= run.confs.len() || run.stage > 7 {
        run
    } else if run.stage == 3 {
        match event {
            Event::DfOutput(out) => if usage_text_spec(out@) is None {
                run
            } else {
                PartitionRun { stage: 4, ..run }
            },
            _ => run,
        }
    } else if run.stage == 4 {
        match event {
            Event::Fraction(r) => PartitionRun {
                stage: 5,
                color: color_spec(r.hundredths as int),
                ..run
            },
            _ => run,
        }
    } else if run.stage == 7 {
        PartitionRun { conf: (run.conf + 1) as usize, stage: 0, ..run }
    } else {
        PartitionRun { stage: (run.stage + 1) as u64, ..run }
    }
}

/// One step of the partition screens. For each configured partition: clear
/// the display, run `df` on it and read its usage, draw the usage on the
/// bar, and show the partition's name in the bar's colour for ten seconds.
pub fn do_partition_utilization(run: &mut PartitionRun, event: Event) -> (action: Action)
    ensures
        action@ == partition_action(*old(run), event),
        *final(run) == partition_next(*old(run), event),
{
    let stage: u64 = run.stage;
    if run.conf >= run.confs.len() || stage > 7 {
        return Action::Done;
    }
    if stage == 3 {
        match event {
            Event::DfOutput(out) => match get_partition_usage(out.as_str()) {
                None => Action::Abort(Fault::UnreadableUsage),
                Some(t) => {
                    run.stage = 4;
                    Action::ParseUsage(t)
                },
            },
            _ => Action::Abort(Fault::UnexpectedReply),
        }
    } else if stage == 4 {
        match event {
            Event::Fraction(r) => {
                run.stage = 5;
                run.color = get_color(r.hundredths);
                send(reading_bar(&r))
            },
            _ => Action::Abort(Fault::UnexpectedReply),
        }
    } else if stage == 7 {
        run.conf = run.conf + 1;
        run.stage = 0;
        Action::Sleep(10000)
    } else {
        let action = if stage == 0 {
            send(clear())
        } else if stage == 1 || stage == 5 {
            Action::Sleep(100)
        } else if stage == 2 {
            Action::RunDf(run.confs[run.conf].partition_path.clone())
        } else {
            send(text_command(run.color, run.confs[run.conf].partition_name.as_str()))
        };
        run.stage = stage + 1;
        action
    }
}

// ---------------------------------------------------------------------------
// Progress of the modes

/// The number of steps the host screen has left: each step that neither
/// finishes nor refuses the reply takes exactly one.
pub open spec fn host_kernel_remaining(run: HostKernelRun) -> int {
    if run.stage < 7 { 7 - run.stage } else { 0 }
}

/// A step of the host screen either finishes it or refuses the reply, and
/// then leaves the state unchanged, or takes it exactly one step closer to
/// its end; once finished it stays finished, whatever the reply.
pub proof fn host_kernel_progress(run: HostKernelRun, event: Event, other: Event)
    ensures
        host_kernel_remaining(run) >= 0,
        host_kernel_action(run, event) is Done || host_kernel_action(run, event) is Abort
            ==> host_kernel_next(run, event) == run,
        host_kernel_action(run, event) is Done ==> host_kernel_remaining(run) == 0
            && host_kernel_action(run, other) is Done,
        !(host_kernel_action(run, event) is Done || host_kernel_action(run, event) is Abort)
            ==> host_kernel_remaining(host_kernel_next(run, event)) == host_kernel_remaining(run)
            - 1,
{
}

/// The number of steps the uptime screen has left.
pub open spec fn uptime_remaining(run: UptimeRun) -> int {
    let rounds: int = uptime_rounds() as int;
    let done: int = if run.round < rounds { run.round as int } else { rounds };
    if run.stage < 4 {
        (4 - run.stage) + 3 * (rounds - done)
    } else if run.stage <= 6 && run.round < rounds {
        3 * (rounds - run.round) - (run.stage - 4)
    } else {
        0
    }
}

/// A step of the uptime screen either finishes it or refuses the reply, and
/// then leaves the state unchanged, or takes it exactly one step closer to
/// its end; once finished it stays finished, whatever the reply.
pub proof fn uptime_progress(run: UptimeRun, event: Event, other: Event)
    ensures
        uptime_remaining(run) >= 0,
        uptime_action(run, event) is Done || uptime_action(run, event) is Abort ==> uptime_next(
            run,
            event,
        ) == run,
        uptime_action(run, event) is Done ==> uptime_remaining(run) == 0 && uptime_action(
            run,
            other,
        ) is Done,
        !(uptime_action(run, event) is Done || uptime_action(run, event) is Abort)
            ==> uptime_remaining(uptime_next(run, event)) == uptime_remaining(run) - 1,
{
}

/// The number of steps the CPU screen has left.
pub open spec fn cpu_remaining(run: CpuRun) -> int {
    let rounds: int = cpu_rounds() as int;
    let done: int = if run.round < rounds { run.round as int } else { rounds };
    if run.stage < 3 {
        (3 - run.stage) + 2 * (rounds - done)
    } else if run.stage <= 4 && run.round < rounds {
        2 * (rounds - run.round) - (run.stage - 3)
    } else {
        0
    }
}

/// A step of the CPU screen either finishes it or refuses the reply, and
/// then leaves the state unchanged, or takes it exactly one step closer to
/// its end; once finished it stays finished, whatever the reply.
pub proof fn cpu_progress(run: CpuRun, event: Event, other: Event)
    ensures
        cpu_remaining(run) >= 0,
        cpu_action(run, event) is Done || cpu_action(run, event) is Abort ==> cpu_next(run, event)
            == run,
        cpu_action(run, event) is Done ==> cpu_remaining(run) == 0 && cpu_action(
            run,
            other,
        ) is Done,
        !(cpu_action(run, event) is Done || cpu_action(run, event) is Abort) ==> cpu_remaining(
            cpu_next(run, event),
        ) == cpu_remaining(run) - 1,
{
}

/// The number of steps the memory screen has left.
pub open spec fn memory_remaining(run: MemoryRun) -> int {
    let rounds: int = memory_rounds() as int;
    let done: int = if run.round < rounds { run.round as int } else { rounds };
    if run.stage < 2 {
        (2 - run.stage) + 6 * (rounds - done)
    } else if run.stage <= 7 && run.round < rounds {
        6 * (rounds - run.round) - (run.stage - 2)
    } else {
        0
    }
}

/// A step of the memory screen either finishes it or refuses the reply, and
/// then leaves the state unchanged, or takes it exactly one step closer to
/// its end; once finished it stays finished, whatever the reply.
pub proof fn memory_progress(run: MemoryRun, event: Event, other: Event)
    ensures
        memory_remaining(run) >= 0,
        memory_action(run, event) is Done || memory_action(run, event) is Abort ==> memory_next(
            run,
            event,
        ) == run,
        memory_action(run, event) is Done ==> memory_remaining(run) == 0 && memory_action(
            run,
            other,
        ) is Done,
        !(memory_action(run, event) is Done || memory_action(run, event) is Abort)
            ==> memory_remaining(memory_next(run, event)) == memory_remaining(run) - 1,
{
}

/// The number of steps one network screen takes from its start.
pub open spec fn network_screen_steps() -> int {
    5 + 7 * network_rounds() + 1
}

/// The number of steps the network screens have left.
pub open spec fn network_remaining(run: NetworkRun) -> int {
    let rounds: int = network_rounds() as int;
    if run.conf >= run.confs.len() {
        0
    } else {
        let later: int = (run.confs.len() - run.conf - 1) * network_screen_steps();
        if run.stage < 5 {
            later + (5 - run.stage) + 7 * rounds + 1
        } else if run.stage <= 11 && run.round < rounds {
            later + 7 * (rounds - run.round) - (run.stage - 5) + 1
        } else if run.stage == 5 {
            later + 1
        } else {
            0
        }
    }
}

/// A step of the network screens either finishes them or refuses the
/// reply, and then leaves the state unchanged, or takes them exactly one
/// step closer to their end; once finished they stay finished, whatever the
/// reply; and the configured interfaces never change.
pub proof fn network_progress(run: NetworkRun, event: Event, other: Event)
    ensures
        network_remaining(run) >= 0,
        network_next(run, event).confs == run.confs,
        network_action(run, event) is Done || network_action(run, event) is Abort
            ==> network_next(run, event) == run,
        network_action(run, event) is Done ==> network_remaining(run) == 0 && network_action(
            run,
            other,
        ) is Done,
        !(network_action(run, event) is Done || network_action(run, event) is Abort)
            ==> network_remaining(network_next(run, event)) == network_remaining(run) - 1,
{
    let left: int = run.confs.len() - run.conf - 1;
    assert(network_screen_steps() == 76);
    if run.conf < run.confs.len() {
        assert(left * 76 >= 0) by (nonlinear_arith)
            requires
                left >= 0,
        ;
        if left > 0 {
            assert((left - 1) * 76 + 76 == left * 76) by (nonlinear_arith);
        }
    }
}

/// The number of steps the partition screens have left.
pub open spec fn partition_remaining(run: PartitionRun) -> int {
    if run.conf >= run.confs.len() || run.stage > 7 {
        0
    } else {
        (run.confs.len() - run.conf - 1) * 8 + (8 - run.stage)
    }
}

/// A step of the partition screens either finishes them or refuses the
/// reply, and then leaves the state unchanged, or takes them exactly one
/// step closer to their end; once finished they stay finished, whatever the
/// reply; and the configured partitions never change.
pub proof fn partition_progress(run: PartitionRun, event: Event, other: Event)
    ensures
        partition_remaining(run) >= 0,
        partition_next(run, event).confs == run.confs,
        partition_action(run, event) is Done || partition_action(run, event) is Abort
            ==> partition_next(run, event) == run,
        partition_action(run, event) is Done ==> partition_remaining(run) == 0
            && partition_action(run, other) is Done,
        !(partition_action(run, event) is Done || partition_action(run, event) is Abort)
            ==> partition_remaining(partition_next(run, event)) == partition_remaining(run) - 1,
{
}

/// Each fresh screen has a fixed number of steps to go: the host screen 7,
/// the uptime screen 34 (ten readings), the CPU screen 203 (a hundred
/// readings), the memory screen 122 (twenty rounds), and the network and
/// partition screens 76 and 8 per configured interface and partition.
pub proof fn fresh_screen_lengths(
    host: HostKernelRun,
    uptime: UptimeRun,
    cpu: CpuRun,
    memory: MemoryRun,
    network: NetworkRun,
    partition: PartitionRun,
)
    requires
        host.stage == 0,
        uptime.stage == 0 && uptime.round == 0,
        cpu.stage == 0 && cpu.round == 0,
        memory.stage == 0 && memory.round == 0,
        network.conf == 0 && network.stage == 0,
        partition.conf == 0 && partition.stage == 0,
    ensures
        host_kernel_remaining(host) == 7,
        uptime_remaining(uptime) == 34,
        cpu_remaining(cpu) == 203,
        memory_remaining(memory) == 122,
        network_remaining(network) == 76 * network.confs.len(),
        partition_remaining(partition) == 8 * partition.confs.len(),
{
    if network.confs.len() > 0 {
        assert((network.confs.len() - 1) * 76 + 76 == 76 * network.confs.len()) by (nonlinear_arith);
    }
}

/// The line drawn after a bar has the bar's colour: on the memory, network
/// and partition screens, a reading drawn on the bar in colour `c` is
/// followed, two steps later, by a text command in colour `c`.
pub proof fn label_has_bar_color(
    memory: MemoryRun,
    network: NetworkRun,
    partition: PartitionRun,
    event: Event,
    ready: Event,
)
    ensures
        ({
            let m1 = memory_next(memory, event);
            let m2 = memory_next(m1, ready);
            memory.stage == 4 && memory.round < memory_rounds() && event is Memory ==> {
                &&& memory_action(memory, event) == ActionView::Send(
                    bar_spec(m1.color, event->Memory_percent.text@),
                )
                &&& memory_action(m2, ready) == ActionView::Send(
                    text_spec(m1.color, memory_text_spec(m2.used as nat, m2.total as nat)),
                )
            }
        }),
        ({
            let n1 = network_next(network, event);
            let n2 = network_next(n1, ready);
            network.conf < network.confs.len() && network.stage == 9 && network.round
                < network_rounds() && event is Rate ==> {
                &&& network_action(network, event) == ActionView::Send(
                    bar_spec(n1.color, event->Rate_percent.text@),
                )
                &&& network_action(n2, ready) == ActionView::Send(
                    text_spec(
                        n1.color,
                        network_text_spec(
                            network.confs[network.conf as int].interface_name@,
                            n2.mbps@,
                        ),
                    ),
                )
            }
        }),
        ({
            let p1 = partition_next(partition, event);
            let p2 = partition_next(p1, ready);
            partition.conf < partition.confs.len() && partition.stage == 4 && event is Fraction
                ==> {
                &&& partition_action(partition, event) == ActionView::Send(
                    bar_spec(p1.color, event->Fraction_0.text@),
                )
                &&& partition_action(p2, ready) == ActionView::Send(
                    text_spec(p1.color, partition.confs[partition.conf as int].partition_name@),
                )
            }
        }),
{
}

/// The uptime screen shows the uptime's parts in full: an uptime of `d`
/// days, `h` hours, `m` minutes and `s` seconds (with `h < 24`, `m < 60`,
/// `s < 60`) is shown as `Uptime: <d>d <h>h <m>m <s>s`, each number written
/// out in decimal.
pub proof fn uptime_text_shows_parts(d: nat, h: nat, m: nat, s: nat)
    requires
        h < 24,
        m < 60,
        s < 60,
    ensures
        uptime_text_spec(d * 86400 + h * 3600 + m * 60 + s) == "Uptime: "@ + decimal_spec(d)
            + seq!['d', ' '] + decimal_spec(h) + seq!['h', ' '] + decimal_spec(m) + seq!['m', ' ']
            + decimal_spec(s) + seq!['s'],
{
    let u: int = (d * 86400 + h * 3600 + m * 60 + s) as int;
    let minutes: int = (d * 1440 + h * 60 + m) as int;
    let hours: int = (d * 24 + h) as int;
    assert(u == minutes * 60 + s);
    assert(u == hours * 3600 + (m * 60 + s));
    assert(u == d * 86400 + (h * 3600 + m * 60 + s));
    assert(minutes == hours * 60 + m);
    vstd::arithmetic::div_mod::lemma_fundamental_div_mod_converse(u, 60, minutes, s as int);
    vstd::arithmetic::div_mod::lemma_fundamental_div_mod_converse(
        u,
        3600,
        hours,
        (m * 60 + s) as int,
    );
    vstd::arithmetic::div_mod::lemma_fundamental_div_mod_converse(
        u,
        86400,
        d as int,
        (h * 3600 + m * 60 + s) as int,
    );
    vstd::arithmetic::div_mod::lemma_fundamental_div_mod_converse(minutes, 60, hours, m as int);
    vstd::arithmetic::div_mod::lemma_fundamental_div_mod_converse(hours, 24, d as int, h as int);
    assert(uptime_parts_spec(u as nat) == (d, h, m, s));
}

/// The bit count read from the samples is the last sample of the
/// interface, received and transmitted bytes times eight, whatever count
/// was held before.
pub proof fn bandwidth_is_last_sample(prev: int, samples: Seq<NetSample>, iface: Seq<char>, j: int)
    requires
        0 <= j < samples.len(),
        samples[j].name@ == iface,
        forall|i: int| j < i < samples.len() ==> #[trigger] samples[i].name@ != iface,
    ensures
        bandwidth_spec(prev, samples, iface) == samples[j].received * 8 + samples[j].transmitted
            * 8,
    decreases samples.len(),
{
    let last = samples.len() - 1;
    assert(samples.last() == samples[last]);
    if j < last {
        let rest = samples.drop_last();
        assert(samples[last].name@ != iface);
        assert forall|i: int| j < i < rest.len() implies #[trigger] rest[i].name@ != iface by {
            assert(rest[i] == samples[i]);
        }
        assert(rest[j] == samples[j]);
        bandwidth_is_last_sample(prev, rest, iface, j);
    }
}

/// Each network reading stands on its own: on a reply whose samples hold
/// the interface (without overflow), the rate asked for is the last such
/// sample's received and transmitted bytes times eight, against the
/// interface's top speed, whatever bit count the screen held before; and
/// that count is what the screen keeps.
pub proof fn network_reading_is_last_sample(run: NetworkRun, event: Event, j: int)
    requires
        run.conf < run.confs.len(),
        run.stage == 8,
        run.round < network_rounds(),
        event is Networks,
        0 <= j < event->Networks_0@.len(),
        event->Networks_0@[j].name@ == run.confs[run.conf as int].interface_name@,
        forall|i: int|
            j < i < event->Networks_0@.len() ==> #[trigger] event->Networks_0@[i].name@
                != run.confs[run.conf as int].interface_name@,
        forall|i: int|
            0 <= i < event->Networks_0@.len() && #[trigger] event->Networks_0@[i].name@
                == run.confs[run.conf as int].interface_name@ ==> event->Networks_0@[i].received
                * 8 + event->Networks_0@[i].transmitted * 8 <= u64::MAX,
    ensures
        network_action(run, event) == (ActionView::Rate {
            bits: (event->Networks_0@[j].received * 8 + event->Networks_0@[j].transmitted
                * 8) as u64,
            top_speed_bps: run.confs[run.conf as int].top_speed_bps,
        }),
        network_next(run, event).bits == event->Networks_0@[j].received * 8
            + event->Networks_0@[j].transmitted * 8,
{
    let samples = event->Networks_0@;
    let iface = run.confs[run.conf as int].interface_name@;
    bandwidth_is_last_sample(run.bits as int, samples, iface, j);
    assert(!bandwidth_overflows(samples, iface));
}

/// Each memory round shows the figures read in that round: after a memory
/// reply with `used` and `total`, the screen keeps those figures, and two
/// steps later writes `t <colour> Memory <used/1000>/<total/1000>MB`, in
/// the colour of the reply's reading.
pub proof fn memory_round_shows_its_figures(run: MemoryRun, event: Event, ready: Event)
    requires
        run.stage == 4,
        run.round < memory_rounds(),
        event is Memory,
    ensures
        memory_next(run, event).used == event->Memory_used,
        memory_next(run, event).total == event->Memory_total,
        memory_action(memory_next(memory_next(run, event), ready), ready) == ActionView::Send(
            seq!['t', ' ', color_spec(event->Memory_percent.hundredths as int), ' ']
                + "Memory "@ + decimal_spec(event->Memory_used as nat / 1000) + seq!['/']
                + decimal_spec(event->Memory_total as nat / 1000) + "MB"@ + seq!['\n'],
        ),
{
    let m2 = memory_next(memory_next(run, event), ready);
    assert(text_spec(m2.color, memory_text_spec(m2.used as nat, m2.total as nat)) =~= seq![
        't',
        ' ',
        color_spec(event->Memory_percent.hundredths as int),
        ' ',
    ] + "Memory "@ + decimal_spec(event->Memory_used as nat / 1000) + seq!['/'] + decimal_spec(
        event->Memory_total as nat / 1000,
    ) + "MB"@ + seq!['\n']);
}

/// The host screen shows the host name, a space and the kernel version, in
/// green: `t g <host> <kernel>`, an absent one left empty.
pub proof fn host_screen_shows_host_and_kernel(run: HostKernelRun, event: Event)
    requires
        run.stage == 5,
        event is HostKernel,
    ensures
        ({
            let h = match event->host {
                Some(h) => h@,
                None => Seq::<char>::empty(),
            };
            let k = match event->kernel {
                Some(k) => k@,
                None => Seq::<char>::empty(),
            };
            host_kernel_action(run, event) == ActionView::Send(
                seq!['t', ' ', 'g', ' '] + h + seq![' '] + k + seq!['\n'],
            )
        }),
{
    let h = match event->host {
        Some(h) => h@,
        None => Seq::<char>::empty(),
    };
    let k = match event->kernel {
        Some(k) => k@,
        None => Seq::<char>::empty(),
    };
    assert(text_spec('g', host_kernel_text_spec(event->host, event->kernel)) =~= seq![
        't',
        ' ',
        'g',
        ' ',
    ] + h + seq![' '] + k + seq!['\n']);
}

/// When no sample is of the interface, the bit count stays what it was.
pub proof fn bandwidth_kept_when_absent(prev: int, samples: Seq<NetSample>, iface: Seq<char>)
    requires
        forall|i: int| 0 <= i < samples.len() ==> #[trigger] samples[i].name@ != iface,
    ensures
        bandwidth_spec(prev, samples, iface) == prev,
    decreases samples.len(),
{
    if samples.len() > 0 {
        assert(samples.last() == samples[samples.len() - 1]);
        let rest = samples.drop_last();
        assert forall|i: int| 0 <= i < rest.len() implies #[trigger] rest[i].name@ != iface by {
            assert(rest[i] == samples[i]);
        }
        bandwidth_kept_when_absent(prev, rest, iface);
    }
}

} // verus!
