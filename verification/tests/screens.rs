use rivctrl::config::{NetConf, PartConf};
use rivctrl::modes::{
    do_cpu_utilization, do_hostname_kernel, do_memory_utilization, do_network_utilization,
    do_partition_utilization, do_uptime, memory_text, select_bandwidth, uptime_command,
    uptime_parts, Action, CpuRun, Event, Fault, HostKernelRun, MemoryRun, NetSample, NetworkRun,
    PartitionRun, Reading, Refresh, UptimeRun,
};

fn reading(hundredths: i64, text: &str) -> Reading {
    Reading { hundredths, text: text.to_string() }
}

fn sample(name: &str, received: u64, transmitted: u64) -> NetSample {
    NetSample { name: name.to_string(), received, transmitted }
}

/// Runs a screen to its end, answering each action with `reply`, and
/// records the actions given.
fn run_screen(mut step: impl FnMut(Event) -> Action, mut reply: impl FnMut(&Action) -> Event) -> Vec<Action> {
    let mut actions = Vec::new();
    let mut event = Event::Ready;
    for _ in 0..10_000 {
        let action = step(event);
        if matches!(action, Action::Done) {
            return actions;
        }
        assert!(!matches!(action, Action::Abort(_)), "screen aborted: {:?}", action);
        event = reply(&action);
        actions.push(action);
    }
    panic!("screen did not finish");
}

fn sent(actions: &[Action]) -> Vec<String> {
    actions
        .iter()
        .filter_map(|a| match a {
            Action::Send(s) => Some(s.clone()),
            _ => None,
        })
        .collect()
}

#[test]
fn uptime_split_into_parts() {
    assert_eq!(uptime_parts(0), (0, 0, 0, 0));
    assert_eq!(uptime_parts(59), (0, 0, 0, 59));
    assert_eq!(uptime_parts(3600), (0, 1, 0, 0));
    assert_eq!(uptime_parts(93784), (1, 2, 3, 4));
    assert_eq!(uptime_parts(86399), (0, 23, 59, 59));
}

#[test]
fn uptime_parts_recombine_on_values() {
    for u in [0u64, 1, 61, 3599, 86400, 1_000_000, u64::MAX] {
        let (d, h, m, s) = uptime_parts(u);
        assert!(h < 24 && m < 60 && s < 60);
        assert_eq!(d as u128 * 86400 + h as u128 * 3600 + m as u128 * 60 + s as u128, u as u128);
    }
}

#[test]
fn uptime_command_text() {
    assert_eq!(uptime_command(93784), "t g Uptime: 1d 2h 3m 4s\n");
    assert_eq!(uptime_command(0), "t g Uptime: 0d 0h 0m 0s\n");
}

#[test]
fn memory_text_in_megabytes() {
    assert_eq!(memory_text(8_123_456, 16_000_999), "Memory 8123/16000MB");
    assert_eq!(memory_text(999, 0), "Memory 0/0MB");
}

#[test]
fn bandwidth_of_named_interface() {
    let samples = vec![sample("lo", 5, 5), sample("eno1", 100, 25), sample("wlan0", 1, 1)];
    assert_eq!(select_bandwidth(7, &samples, &"eno1".to_string()), Some(1000));
}

#[test]
fn bandwidth_kept_for_missing_interface() {
    let samples = vec![sample("lo", 5, 5)];
    assert_eq!(select_bandwidth(7, &samples, &"eno1".to_string()), Some(7));
    assert_eq!(select_bandwidth(0, &Vec::new(), &"eno1".to_string()), Some(0));
}

#[test]
fn bandwidth_last_sample_counts() {
    let samples = vec![sample("eno1", 1, 1), sample("eno1", 2, 0)];
    assert_eq!(select_bandwidth(0, &samples, &"eno1".to_string()), Some(16));
}

#[test]
fn bandwidth_overflow_is_refused() {
    let samples = vec![sample("eno1", u64::MAX / 8 + 1, 0)];
    assert_eq!(select_bandwidth(0, &samples, &"eno1".to_string()), None);
    let samples = vec![sample("eno1", u64::MAX / 8, u64::MAX / 8)];
    assert_eq!(select_bandwidth(0, &samples, &"eno1".to_string()), None);
    let samples = vec![sample("lo", u64::MAX, u64::MAX)];
    assert_eq!(select_bandwidth(3, &samples, &"eno1".to_string()), Some(3));
}

#[test]
fn host_screen_sequence() {
    let mut run = HostKernelRun::new();
    let actions = run_screen(
        |e| do_hostname_kernel(&mut run, e),
        |a| match a {
            Action::ReadHostKernel => Event::HostKernel { host: Some("box".to_string()), kernel: None },
            _ => Event::Ready,
        },
    );
    assert_eq!(actions.len(), 7);
    assert!(matches!(actions[0], Action::Refresh(Refresh::All)));
    assert!(matches!(actions[1], Action::Sleep(100)));
    assert!(matches!(actions[3], Action::Sleep(100)));
    assert!(matches!(actions[4], Action::ReadHostKernel));
    assert!(matches!(actions[6], Action::Sleep(10000)));
    assert_eq!(sent(&actions), vec!["c\n".to_string(), "t g box \n".to_string()]);
}

#[test]
fn host_screen_refuses_wrong_reply() {
    let mut run = HostKernelRun::new();
    for _ in 0..5 {
        do_hostname_kernel(&mut run, Event::Ready);
    }
    let a = do_hostname_kernel(&mut run, Event::Uptime(3));
    assert!(matches!(a, Action::Abort(Fault::UnexpectedReply)));
    assert_eq!(run.stage, 5);
}

#[test]
fn uptime_screen_shows_ten_readings() {
    let mut run = UptimeRun::new();
    let mut clock = 100u64;
    let actions = run_screen(
        |e| do_uptime(&mut run, e),
        |a| match a {
            Action::ReadUptime => {
                clock += 1;
                Event::Uptime(clock)
            },
            _ => Event::Ready,
        },
    );
    assert_eq!(actions.len(), 34);
    let lines = sent(&actions);
    assert_eq!(lines.len(), 11);
    assert_eq!(lines[0], "c\n");
    assert_eq!(lines[1], "t g Uptime: 0d 0h 1m 41s\n");
    assert_eq!(lines[10], "t g Uptime: 0d 0h 1m 50s\n");
    assert_eq!(actions.iter().filter(|a| matches!(a, Action::Sleep(1000))).count(), 10);
}

#[test]
fn uptime_screen_stays_done() {
    let mut run = UptimeRun { stage: 4, round: 10 };
    assert!(matches!(do_uptime(&mut run, Event::Ready), Action::Done));
    assert!(matches!(do_uptime(&mut run, Event::Uptime(5)), Action::Done));
    assert_eq!(run.stage, 4);
    assert_eq!(run.round, 10);
}

#[test]
fn cpu_screen_draws_hundred_bars() {
    let mut run = CpuRun::new();
    let mut n = 0i64;
    let actions = run_screen(
        |e| do_cpu_utilization(&mut run, e),
        |a| match a {
            Action::SampleCpu(100) => {
                n += 1;
                Event::Fraction(reading(n, &format!("{}", n as f64 / 100.0)))
            },
            _ => Event::Ready,
        },
    );
    assert_eq!(actions.len(), 203);
    let lines = sent(&actions);
    assert_eq!(lines.len(), 102);
    assert_eq!(lines[0], "c\n");
    assert_eq!(lines[1], "t g CPU Usage\n");
    assert_eq!(lines[2], "p g 0.01\n");
    assert_eq!(lines[72], "p y 0.71\n");
    assert_eq!(lines[91], "p g 0.9\n");
    assert_eq!(lines[101], "p r 1\n");
}

#[test]
fn memory_screen_rounds() {
    let mut run = MemoryRun::new();
    let actions = run_screen(
        |e| do_memory_utilization(&mut run, e),
        |a| match a {
            Action::ReadMemory => Event::Memory { total: 16_000_000, used: 12_800_000, percent: reading(80, "0.8") },
            _ => Event::Ready,
        },
    );
    assert_eq!(actions.len(), 122);
    let lines = sent(&actions);
    assert_eq!(lines.len(), 41);
    assert_eq!(lines[1], "p y 0.8\n");
    assert_eq!(lines[2], "t y Memory 12800/16000MB\n");
    assert!(matches!(actions[2], Action::Refresh(Refresh::Memory)));
    assert!(matches!(actions[3], Action::ReadMemory));
    assert!(matches!(actions[7], Action::Sleep(400)));
}

#[test]
fn network_screens_per_interface() {
    let confs = vec![
        NetConf { interface_name: "eno1".to_string(), top_speed_bps: 1000 },
        NetConf { interface_name: "eno2".to_string(), top_speed_bps: 2000 },
    ];
    let mut run = NetworkRun::new(confs);
    let mut asked = Vec::new();
    let actions = run_screen(
        |e| do_network_utilization(&mut run, e),
        |a| match a {
            Action::ReadNetworks => Event::Networks(vec![sample("eno1", 100, 0), sample("lo", 1, 1)]),
            Action::Rate { bits, top_speed_bps } => {
                asked.push((*bits, *top_speed_bps));
                Event::Rate { percent: reading(80, "0.8"), mbps: "0".to_string() }
            },
            _ => Event::Ready,
        },
    );
    assert_eq!(actions.len(), 152);
    assert_eq!(asked.len(), 20);
    assert_eq!(asked[0], (800, 1000));
    assert_eq!(asked[10], (0, 2000));
    let lines = sent(&actions);
    assert_eq!(lines[0], "c\n");
    assert_eq!(lines[1], "t g eno1\n");
    assert_eq!(lines[2], "p y 0.8\n");
    assert_eq!(lines[3], "t y eno1: 0Mbps\n");
    assert_eq!(lines[22], "c\n");
    assert_eq!(lines[23], "t g eno2\n");
}

#[test]
fn network_screen_overflow_aborts() {
    let confs = vec![NetConf { interface_name: "eno1".to_string(), top_speed_bps: 1000 }];
    let mut run = NetworkRun::new(confs);
    for _ in 0..8 {
        do_network_utilization(&mut run, Event::Ready);
    }
    let a = do_network_utilization(&mut run, Event::Networks(vec![sample("eno1", u64::MAX, 0)]));
    assert!(matches!(a, Action::Abort(Fault::BandwidthOverflow)));
}

#[test]
fn partition_screens_per_partition() {
    let confs = vec![
        PartConf { partition_name: "Internal RAID".to_string(), partition_path: "/dev/sdz".to_string() },
        PartConf { partition_name: "External RAID".to_string(), partition_path: "/dev/sdb".to_string() },
    ];
    let mut run = PartitionRun::new(confs);
    let mut parsed = Vec::new();
    let actions = run_screen(
        |e| do_partition_utilization(&mut run, e),
        |a| match a {
            Action::RunDf(path) => Event::DfOutput(if path == "/dev/sdz" { "Use%\n 95%\n" } else { "Use%\n 3%\n" }.to_string()),
            Action::ParseUsage(t) => {
                parsed.push(t.clone());
                let x: f64 = t.parse().unwrap_or(0.0);
                let h = (x * 100.0).trunc();
                Event::Fraction(reading(h as i64, &format!("{}", h / 100.0)))
            },
            _ => Event::Ready,
        },
    );
    assert_eq!(actions.len(), 16);
    assert_eq!(parsed, vec!["0.95".to_string(), "0.03".to_string()]);
    assert_eq!(
        sent(&actions),
        vec!["c\n", "p r 0.95\n", "t r Internal RAID\n", "c\n", "p g 0.03\n", "t g External RAID\n"]
            .into_iter()
            .map(String::from)
            .collect::<Vec<_>>()
    );
}

#[test]
fn partition_screen_unreadable_usage_aborts() {
    let confs = vec![PartConf { partition_name: "x".to_string(), partition_path: "/dev/x".to_string() }];
    let mut run = PartitionRun::new(confs);
    for _ in 0..3 {
        do_partition_utilization(&mut run, Event::Ready);
    }
    let a = do_partition_utilization(&mut run, Event::DfOutput("Use%\n\n".to_string()));
    assert!(matches!(a, Action::Abort(Fault::UnreadableUsage)));
    assert_eq!(run.stage, 3);
}

#[test]
fn empty_screen_lists_finish_at_once() {
    let mut run = NetworkRun::new(Vec::new());
    assert!(matches!(do_network_utilization(&mut run, Event::Ready), Action::Done));
    let mut run = PartitionRun::new(Vec::new());
    assert!(matches!(do_partition_utilization(&mut run, Event::Ready), Action::Done));
}
