use sound_switch::{
    accepts, after_poll, missing_devices_notice, best_score_index, best_similarity_index, commit_outcome,
    coordinator_step, find_best_match, find_exact, more_similar, next_state, pick_by_threshold,
    resolve_switch, similarity, switch_requests, usable_devices, validate_configured_devices,
    AppMessage, AudioDevice, BindingTable, ChannelPoll, Config, CoordinatorStep, DeviceKind,
    Dispatch, FatalInit, FuzzyMatchAlgorithm, HotkeyBinding, HotkeyEvent, HotkeyMapping,
    ListenerEvent, ListenerState, LoopStep, MatchPolicy, RawEndpoint, Session, Similarity,
    SwitchError, SwitchRequest, Threshold,
};

fn dev(id: &str, name: &str) -> AudioDevice {
    AudioDevice { id: id.to_string(), name: name.to_string() }
}

fn exact() -> MatchPolicy {
    MatchPolicy {
        fuzzy_enabled: false,
        algorithm: FuzzyMatchAlgorithm::Skim,
        threshold: Threshold { num: 1, den: 2 },
    }
}

fn skim() -> MatchPolicy {
    MatchPolicy {
        fuzzy_enabled: true,
        algorithm: FuzzyMatchAlgorithm::Skim,
        threshold: Threshold { num: 1, den: 2 },
    }
}

fn levenshtein(num: u64, den: u64) -> MatchPolicy {
    MatchPolicy {
        fuzzy_enabled: true,
        algorithm: FuzzyMatchAlgorithm::Levenshtein,
        threshold: Threshold::new(num, den).unwrap(),
    }
}

fn mapping(keys: &str, output: &str, input: Option<&str>) -> HotkeyMapping {
    HotkeyMapping {
        keys: keys.to_string(),
        device_name: output.to_string(),
        input_device_name: input.map(|s| s.to_string()),
    }
}

fn config(fuzzy: bool, hotkeys: Vec<HotkeyMapping>) -> Config {
    Config {
        fuzzy_match: fuzzy,
        fuzzy_match_algorithm: FuzzyMatchAlgorithm::Skim,
        fuzzy_match_threshold: Threshold { num: 1, den: 2 },
        hotkeys,
    }
}

#[test]
fn exact_match_finds_the_named_device() {
    let devices = vec![dev("a", "Speakers"), dev("b", "Headphones"), dev("c", "Monitor")];
    assert_eq!(find_best_match(&"Headphones".to_string(), &devices, exact()), Some(1));
    assert_eq!(find_exact(&"Monitor".to_string(), &devices), Some(2));
}

#[test]
fn exact_match_is_case_and_byte_sensitive() {
    let devices = vec![dev("a", "Speakers"), dev("b", "Headphones")];
    assert_eq!(find_best_match(&"headphones".to_string(), &devices, exact()), None);
    assert_eq!(find_best_match(&"Headphone".to_string(), &devices, exact()), None);
}

#[test]
fn exact_match_takes_the_first_of_equal_names() {
    let devices = vec![dev("a", "Speakers"), dev("b", "Speakers")];
    assert_eq!(find_best_match(&"Speakers".to_string(), &devices, exact()), Some(0));
}

#[test]
fn exact_match_on_empty_list_is_none() {
    let devices: Vec<AudioDevice> = Vec::new();
    assert_eq!(find_best_match(&"Speakers".to_string(), &devices, exact()), None);
}

#[test]
fn skim_match_picks_the_subsequence_match() {
    let devices = vec![dev("a", "Speakers (Realtek Audio)"), dev("b", "Headphones (USB)")];
    assert_eq!(find_best_match(&"head".to_string(), &devices, skim()), Some(1));
}

#[test]
fn skim_match_is_stable_and_prefers_the_earlier_tie() {
    let devices = vec![dev("a", "Headphones"), dev("b", "Speakers"), dev("c", "Headphones")];
    let first = find_best_match(&"Headphones".to_string(), &devices, skim());
    let second = find_best_match(&"Headphones".to_string(), &devices, skim());
    assert_eq!(first, Some(0));
    assert_eq!(first, second);
}

#[test]
fn skim_match_without_any_score_is_none() {
    let devices = vec![dev("a", "Speakers"), dev("b", "Monitor")];
    assert_eq!(find_best_match(&"xyz".to_string(), &devices, skim()), None);
}

#[test]
fn best_score_index_keeps_the_first_maximum() {
    assert_eq!(best_score_index(&vec![None, Some(5), Some(7), Some(7), Some(3)]), Some(2));
    assert_eq!(best_score_index(&vec![Some(-4), None, Some(-2)]), Some(2));
    assert_eq!(best_score_index(&vec![None, None]), None);
    assert_eq!(best_score_index(&Vec::new()), None);
}

#[test]
fn similarity_values() {
    assert_eq!(similarity(1, 4, 4), Similarity { num: 3, den: 4 });
    assert_eq!(similarity(3, 6, 7), Similarity { num: 4, den: 7 });
    assert_eq!(similarity(0, 0, 0), Similarity { num: 1, den: 1 });
    assert_eq!(similarity(5, 0, 5), Similarity { num: 0, den: 5 });
}

#[test]
fn similarity_comparison_and_threshold() {
    let three_quarters = Similarity { num: 3, den: 4 };
    let six_eighths = Similarity { num: 6, den: 8 };
    assert!(!more_similar(three_quarters, six_eighths));
    assert!(more_similar(Similarity { num: 4, den: 5 }, three_quarters));
    assert!(accepts(three_quarters, Threshold { num: 3, den: 4 }));
    assert!(accepts(three_quarters, Threshold { num: 6, den: 10 }));
    assert!(!accepts(three_quarters, Threshold { num: 8, den: 10 }));
}

#[test]
fn best_similarity_index_keeps_the_first_maximum() {
    let sims = vec![
        Similarity { num: 1, den: 2 },
        Similarity { num: 3, den: 4 },
        Similarity { num: 6, den: 8 },
    ];
    assert_eq!(best_similarity_index(&sims), Some(1));
    assert_eq!(best_similarity_index(&Vec::new()), None);
    assert_eq!(pick_by_threshold(&sims, Threshold { num: 3, den: 4 }), Some(1));
    assert_eq!(pick_by_threshold(&sims, Threshold { num: 4, den: 5 }), None);
}

#[test]
fn levenshtein_accepts_similarity_equal_to_threshold() {
    // "abce" is one substitution away from "abcd": similarity 3/4.
    let devices = vec![dev("a", "wxyz"), dev("b", "abce")];
    assert_eq!(find_best_match(&"abcd".to_string(), &devices, levenshtein(3, 4)), Some(1));
    assert_eq!(find_best_match(&"abcd".to_string(), &devices, levenshtein(75, 100)), Some(1));
}

#[test]
fn levenshtein_rejects_similarity_below_threshold() {
    let devices = vec![dev("a", "wxyz"), dev("b", "abce")];
    assert_eq!(find_best_match(&"abcd".to_string(), &devices, levenshtein(76, 100)), None);
    assert_eq!(find_best_match(&"abcd".to_string(), &devices, levenshtein(1, 1)), None);
}

#[test]
fn levenshtein_ignores_case() {
    let upper = vec![dev("a", "Monitor"), dev("b", "Speakers")];
    let lower = vec![dev("a", "Monitor"), dev("b", "speakers")];
    let policy = levenshtein(1, 1);
    assert_eq!(find_best_match(&"Speakers".to_string(), &upper, policy), Some(1));
    assert_eq!(find_best_match(&"Speakers".to_string(), &lower, policy), Some(1));
    assert_eq!(find_best_match(&"SPEAKERS".to_string(), &lower, policy), Some(1));
}

#[test]
fn levenshtein_ties_keep_the_first() {
    let devices = vec![dev("a", "abcx"), dev("b", "abcy")];
    assert_eq!(find_best_match(&"abcd".to_string(), &devices, levenshtein(1, 2)), Some(0));
}

#[test]
fn levenshtein_on_empty_list_is_none() {
    let devices: Vec<AudioDevice> = Vec::new();
    assert_eq!(find_best_match(&"abcd".to_string(), &devices, levenshtein(0, 1)), None);
}

#[test]
fn threshold_must_be_a_fraction_in_unit_interval() {
    assert_eq!(Threshold::new(3, 5), Some(Threshold { num: 3, den: 5 }));
    assert_eq!(Threshold::new(0, 1), Some(Threshold { num: 0, den: 1 }));
    assert_eq!(Threshold::new(6, 5), None);
    assert_eq!(Threshold::new(0, 0), None);
}

#[test]
fn unusable_endpoints_are_dropped() {
    let raw = vec![
        RawEndpoint { id: "id-1".to_string(), name: Some("Speakers".to_string()) },
        RawEndpoint { id: "".to_string(), name: Some("Ghost".to_string()) },
        RawEndpoint { id: "id-3".to_string(), name: None },
        RawEndpoint { id: "id-4".to_string(), name: Some("Headphones".to_string()) },
    ];
    assert_eq!(usable_devices(&raw), vec![dev("id-1", "Speakers"), dev("id-4", "Headphones")]);
}

#[test]
fn failed_registration_leaves_the_others_dispatchable() {
    let mappings = vec![
        mapping("Ctrl+Alt+1", "Speakers", None),
        mapping("Ctrl+Alt+Bogus", "Headphones", None),
        mapping("Ctrl+Alt+3", "Monitor", Some("Mic")),
    ];
    let regs = vec![Ok(11), Err("unknown key".to_string()), Ok(33)];
    let (table, errors) = BindingTable::build(&mappings, &regs);
    assert_eq!(table.len(), 2);
    assert_eq!(table.get(11).unwrap().output_device_name, "Speakers");
    assert_eq!(table.get(33).unwrap().output_device_name, "Monitor");
    assert_eq!(table.get(33).unwrap().input_device_name, Some("Mic".to_string()));
    assert!(table.get(22).is_none());
    assert_eq!(errors.len(), 1);
    assert_eq!(errors[0].keys, "Ctrl+Alt+Bogus");
    assert_eq!(errors[0].cause, "unknown key");
}

#[test]
fn switch_requests_are_output_then_input() {
    let b = HotkeyBinding {
        hotkey_id: 1,
        output_device_name: "Headphones".to_string(),
        input_device_name: Some("Mic Array".to_string()),
    };
    let reqs = switch_requests(&b);
    assert_eq!(reqs.len(), 2);
    assert_eq!(reqs[0].kind, DeviceKind::Output);
    assert_eq!(reqs[0].target_name, "Headphones");
    assert_eq!(reqs[1].kind, DeviceKind::Input);
    assert_eq!(reqs[1].target_name, "Mic Array");
    let only_output = HotkeyBinding { input_device_name: None, ..b };
    assert_eq!(switch_requests(&only_output).len(), 1);
}

fn session_with(cfg: &Config, regs: &Vec<Result<u32, String>>) -> Session {
    let outputs = vec![dev("{out-1}", "Speakers"), dev("{out-2}", "Headphones")];
    let inputs = vec![dev("{in-1}", "Mic Array"), dev("{in-2}", "Webcam Mic")];
    match Session::start(cfg, regs, Ok(outputs), Ok(inputs)) {
        Ok((session, errors)) => {
            assert!(errors.is_empty());
            session
        }
        Err(_) => panic!("start-up failed"),
    }
}

#[test]
fn unknown_hotkey_id_switches_nothing() {
    let cfg = config(false, vec![mapping("Ctrl+Alt+1", "Headphones", None)]);
    let session = session_with(&cfg, &vec![Ok(7)]);
    assert!(matches!(session.dispatch(HotkeyEvent { id: 99, pressed: true }), Dispatch::UnknownHotkey(99)));
    assert_eq!(session.table.len(), 1);
    assert!(session.table.get(7).is_some());
}

#[test]
fn released_hotkey_is_ignored() {
    let cfg = config(false, vec![mapping("Ctrl+Alt+1", "Headphones", None)]);
    let session = session_with(&cfg, &vec![Ok(7)]);
    assert!(matches!(session.dispatch(HotkeyEvent { id: 7, pressed: false }), Dispatch::Ignored));
}

#[test]
fn end_to_end_press_switches_output_and_input() {
    let cfg = config(false, vec![mapping("Ctrl+Alt+1", "Headphones", Some("Mic Array"))]);
    let session = session_with(&cfg, &vec![Ok(42)]);
    let requests = match session.dispatch(HotkeyEvent { id: 42, pressed: true }) {
        Dispatch::Switch(reqs) => reqs,
        _ => panic!("expected a switch"),
    };
    let mut commits: Vec<(DeviceKind, String)> = Vec::new();
    let mut names: Vec<String> = Vec::new();
    for req in &requests {
        let device = match session.resolve(req) {
            Ok(d) => d,
            Err(_) => panic!("no match"),
        };
        commits.push((req.kind, device.id.clone()));
        match commit_outcome(req.kind, device, Ok(())) {
            Ok(name) => names.push(name),
            Err(_) => panic!("commit failed"),
        }
    }
    assert_eq!(
        commits,
        vec![(DeviceKind::Output, "{out-2}".to_string()), (DeviceKind::Input, "{in-1}".to_string())]
    );
    assert_eq!(names, vec!["Headphones".to_string(), "Mic Array".to_string()]);
}

#[test]
fn missing_device_gives_no_match_and_is_reported() {
    let cfg = config(false, vec![mapping("Ctrl+Alt+2", "Studio Monitors", None)]);
    let outputs = vec![dev("{out-1}", "Speakers"), dev("{out-2}", "Headphones")];
    let inputs = vec![dev("{in-1}", "Mic Array")];
    let req = SwitchRequest { kind: DeviceKind::Output, target_name: "Studio Monitors".to_string() };
    match resolve_switch(&req, &outputs, cfg.policy()) {
        Err(SwitchError::NoMatch { kind, target_name, policy }) => {
            assert_eq!(kind, DeviceKind::Output);
            assert_eq!(target_name, "Studio Monitors");
            assert!(!policy.fuzzy_enabled);
        }
        _ => panic!("expected NoMatch"),
    }
    let report = validate_configured_devices(&cfg, &outputs, &inputs);
    assert_eq!(report.missing_output.len(), 1);
    assert_eq!(report.missing_output[0].device_name, "Studio Monitors");
    assert_eq!(report.missing_output[0].keys, "Ctrl+Alt+2");
    assert!(report.missing_input.is_empty());
    assert_eq!(report.available_output, vec!["Speakers".to_string(), "Headphones".to_string()]);
    assert_eq!(report.available_input, vec!["Mic Array".to_string()]);
}

#[test]
fn validation_checks_input_names_too() {
    let cfg = config(
        false,
        vec![mapping("Ctrl+1", "Speakers", Some("Mic Array")), mapping("Ctrl+2", "Speakers", Some("Old Mic"))],
    );
    let outputs = vec![dev("{out-1}", "Speakers")];
    let inputs = vec![dev("{in-1}", "Mic Array")];
    let report = validate_configured_devices(&cfg, &outputs, &inputs);
    assert!(report.missing_output.is_empty());
    assert_eq!(report.missing_input.len(), 1);
    assert_eq!(report.missing_input[0].device_name, "Old Mic");
    assert_eq!(report.missing_input[0].keys, "Ctrl+2");
}

#[test]
fn commit_failure_is_reported_with_the_device() {
    match commit_outcome(DeviceKind::Input, dev("{in-1}", "Mic Array"), Err("denied".to_string())) {
        Err(SwitchError::CommitFailed { kind, device, cause }) => {
            assert_eq!(kind, DeviceKind::Input);
            assert_eq!(device, dev("{in-1}", "Mic Array"));
            assert_eq!(cause, "denied");
        }
        _ => panic!("expected CommitFailed"),
    }
}

#[test]
fn start_up_fails_when_enumeration_fails() {
    let cfg = config(false, vec![mapping("Ctrl+Alt+1", "Headphones", None)]);
    let regs = vec![Ok(1)];
    match Session::start(&cfg, &regs, Err("no outputs".to_string()), Ok(Vec::new())) {
        Err(FatalInit::OutputEnumeration(m)) => assert_eq!(m, "no outputs"),
        _ => panic!("expected an output enumeration failure"),
    }
    match Session::start(&cfg, &regs, Ok(Vec::new()), Err("no inputs".to_string())) {
        Err(FatalInit::InputEnumeration(m)) => assert_eq!(m, "no inputs"),
        _ => panic!("expected an input enumeration failure"),
    }
}

#[test]
fn poll_loop_stops_on_shutdown_and_sleeps_only_when_idle() {
    assert_eq!(after_poll(true, true, true), LoopStep::Stop);
    assert_eq!(after_poll(false, false, true), LoopStep::Stop);
    assert_eq!(after_poll(true, false, false), LoopStep::Continue);
    assert_eq!(after_poll(false, true, false), LoopStep::Continue);
    assert_eq!(after_poll(false, false, false), LoopStep::Sleep);
}

#[test]
fn listener_phases() {
    assert_eq!(next_state(ListenerState::Starting, ListenerEvent::StartupSucceeded), ListenerState::Running);
    assert_eq!(next_state(ListenerState::Starting, ListenerEvent::StartupFailed), ListenerState::Stopped);
    assert_eq!(next_state(ListenerState::Running, ListenerEvent::ShutdownObserved), ListenerState::Draining);
    assert_eq!(next_state(ListenerState::Draining, ListenerEvent::Drained), ListenerState::Stopped);
    assert_eq!(next_state(ListenerState::Running, ListenerEvent::Drained), ListenerState::Running);
    assert_eq!(next_state(ListenerState::Stopped, ListenerEvent::StartupSucceeded), ListenerState::Stopped);
}

#[test]
fn coordinator_steps() {
    assert!(matches!(
        coordinator_step(ChannelPoll::Received(AppMessage::HotkeyError("boom".to_string()))),
        CoordinatorStep::ReportError(m) if m == "boom"
    ));
    assert!(matches!(coordinator_step(ChannelPoll::Received(AppMessage::Quit)), CoordinatorStep::Shutdown));
    assert!(matches!(coordinator_step(ChannelPoll::Disconnected), CoordinatorStep::Shutdown));
    assert!(matches!(coordinator_step(ChannelPoll::Empty), CoordinatorStep::Continue));
}

const SOLUTIONS: &str = "Possible solutions:\n\
    • Check that the devices are connected and enabled in Windows Sound settings\n\
    • Verify the device names in your config.toml file match the available devices above\n\
    • Consider enabling fuzzy matching in your configuration";

#[test]
fn notice_lists_missing_and_available_devices() {
    let cfg = config(false, vec![mapping("Ctrl+Alt+2", "Studio Monitors", None)]);
    let outputs = vec![dev("{out-1}", "Speakers"), dev("{out-2}", "Headphones")];
    let inputs = vec![dev("{in-1}", "Mic Array")];
    let report = validate_configured_devices(&cfg, &outputs, &inputs);
    let expected = format!(
        "SoundSwitch has started but some configured devices were not found:\n\n\
        Missing Output Device (1):\n  • Studio Monitors (hotkey: Ctrl+Alt+2)\n\n\
        The application will continue to run, but these hotkeys will not work until the devices are available.\n\n\
        Available Output Devices (2):\n  • Speakers\n  • Headphones\n\n{}",
        SOLUTIONS
    );
    assert_eq!(missing_devices_notice(&report), Some(expected));
}

#[test]
fn notice_counts_plural_and_two_digit_sections() {
    let hotkeys: Vec<HotkeyMapping> =
        (0..2).map(|i| mapping(&format!("Ctrl+{}", i), "Speakers", Some(&format!("Mic {}", i)))).collect();
    let cfg = config(false, hotkeys);
    let outputs = vec![dev("{out-1}", "Speakers")];
    let inputs: Vec<AudioDevice> = (0..12).map(|i| dev(&format!("{{in-{}}}", i), &format!("Input {}", i))).collect();
    let report = validate_configured_devices(&cfg, &outputs, &inputs);
    let text = missing_devices_notice(&report).unwrap();
    assert!(text.contains("Missing Input Devices (2):\n  • Mic 0 (hotkey: Ctrl+0)\n  • Mic 1 (hotkey: Ctrl+1)\n\n"));
    assert!(text.contains("Available Input Devices (12):\n  • Input 0\n"));
    assert!(!text.contains("Missing Output"));
    assert!(!text.contains("Available Output"));
}

#[test]
fn no_notice_when_nothing_is_missing() {
    let cfg = config(false, vec![mapping("Ctrl+Alt+1", "Speakers", None)]);
    let outputs = vec![dev("{out-1}", "Speakers")];
    let report = validate_configured_devices(&cfg, &outputs, &Vec::new());
    assert_eq!(missing_devices_notice(&report), None);
}
