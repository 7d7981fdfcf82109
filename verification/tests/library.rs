use smartloop::agent::{
    agent_project_name, agents_overview, agents_table, endpoint_line, health_report, AgentRecord,
    AgentsInfo, AgentsOverview, Health, NOT_RUNNING, NO_AGENTS,
};
use smartloop::chat::{
    after_attempt, classify_line, echo_line, handle_event, opening_prompt,
    session_id, session_line, start_failed, stream_failed, turn_error_action, ChatSession, EventOutput,
    LineAction, StreamEvent, TurnErrorAction, TurnFailure, TurnStep,
};
use smartloop::commands::{created_line, new_project, plan_create, CreatePlan, PROJECT_CREATED};
use smartloop::messages::{error_line, error_message, failure, is_success, rejection_message};
use smartloop::projects::{
    answer_selection, default_project_index, listed_projects, project_id, project_name,
    projects_table, start_selection, Answer, CellColor, ProjectRecord, SelectionStart,
    TableCell, NO_PROJECTS,
};
use smartloop::sizes::format_bytes;
use smartloop::status::{status_line, step_color};
use smartloop::text::{blank, decimal_text, join_texts, parse_usize, same_text, trim};
use smartloop::urls::{
    agents_url, api_url, base_url, health_url, import_url, project_url, projects_url,
    strip_trailing_slashes, DEFAULT_API_URL,
};

fn project(id: &str, name: &str, system: bool, current: bool) -> ProjectRecord {
    ProjectRecord {
        id: Some(id.to_string()),
        name: Some(name.to_string()),
        system: Some(system),
        current: Some(current),
    }
}

fn cells(row: &[TableCell]) -> Vec<(String, CellColor)> {
    row.iter().map(|c| (c.text.clone(), c.color)).collect()
}

fn plain(text: &str) -> (String, CellColor) {
    (text.to_string(), CellColor::Plain)
}

// ---- text ----

#[test]
fn trim_removes_unicode_whitespace_at_both_ends() {
    assert_eq!(trim("  hello world \n"), "hello world");
    assert_eq!(trim("\u{3000}\t x \u{2009}"), "x");
    assert_eq!(trim("   "), "");
    assert_eq!(trim(""), "");
    assert_eq!(trim("a b"), "a b");
    for s in ["\u{85}ab\u{A0}", " \r\n1 \x0b", "\u{200B}x"] {
        assert_eq!(trim(s), s.trim());
    }
}

#[test]
fn blank_matches_trimmed_emptiness() {
    assert!(blank(""));
    assert!(blank(" \t\n"));
    assert!(!blank(" a "));
}

#[test]
fn same_text_compares_characters() {
    assert!(same_text("tools", "tools"));
    assert!(!same_text("tools", "tool"));
    assert!(!same_text("tools", "Tools"));
    assert!(same_text("", ""));
}

#[test]
fn parse_usize_follows_std() {
    for s in ["0", "1", "42", "+7", "+", "", "-1", "12a", " 3", "٣", "007",
        "18446744073709551615", "18446744073709551616", "99999999999999999999999"] {
        assert_eq!(parse_usize(s), s.parse::<usize>().ok(), "input {:?}", s);
    }
}

#[test]
fn decimal_text_renders_numbers() {
    assert_eq!(decimal_text(0), "0");
    assert_eq!(decimal_text(9), "9");
    assert_eq!(decimal_text(10), "10");
    assert_eq!(decimal_text(1234567890123), "1234567890123");
    assert_eq!(decimal_text(u128::MAX), u128::MAX.to_string());
}

#[test]
fn join_texts_puts_separator_between_items() {
    let items = vec!["Q4_K_M".to_string(), "4096 ctx".to_string(), "4.1 GB".to_string()];
    assert_eq!(join_texts(&items, ", "), "Q4_K_M, 4096 ctx, 4.1 GB");
    assert_eq!(join_texts(&vec!["one".to_string()], ", "), "one");
    assert_eq!(join_texts(&Vec::new(), ", "), "");
}

// ---- urls ----

#[test]
fn base_url_defaults_and_strips_trailing_slashes() {
    assert_eq!(base_url(None), "http://localhost:38540");
    assert_eq!(DEFAULT_API_URL, "http://localhost:38540");
    assert_eq!(base_url(Some("http://localhost:9000".to_string())), "http://localhost:9000");
    assert_eq!(base_url(Some("http://localhost:9000///".to_string())), "http://localhost:9000");
    assert_eq!(base_url(Some("/".to_string())), "");
    assert_eq!(strip_trailing_slashes("a/b/"), "a/b");
}

#[test]
fn endpoints_are_built_from_the_base() {
    let base = "http://localhost:38540";
    assert_eq!(api_url(base), "http://localhost:38540/v1");
    assert_eq!(projects_url(base), "http://localhost:38540/v1/projects");
    assert_eq!(import_url(base), "http://localhost:38540/v1/projects/import");
    assert_eq!(project_url(base, "p-1"), "http://localhost:38540/v1/projects/p-1");
    assert_eq!(health_url(base), "http://localhost:38540/health");
    assert_eq!(agents_url(base), "http://localhost:38540/agents");
}

#[test]
fn base_url_law_no_trailing_slash_and_idempotent() {
    for raw in ["http://h:1/", "x//", "", "//", "a/b"] {
        let b = base_url(Some(raw.to_string()));
        assert!(!b.ends_with('/'));
        assert!(raw.starts_with(&b));
        assert_eq!(base_url(Some(b.clone())), b);
    }
}

// ---- sizes ----

fn format_bytes_f64(bytes: u64) -> String {
    let mb = bytes as f64 / (1024.0 * 1024.0);
    if mb >= 1024.0 {
        format!("{:.1} GB", mb / 1024.0)
    } else {
        format!("{:.0} MB", mb)
    }
}

#[test]
fn format_bytes_exact_values() {
    assert_eq!(format_bytes(0), "0 MB");
    assert_eq!(format_bytes(524288), "0 MB");
    assert_eq!(format_bytes(524289), "1 MB");
    assert_eq!(format_bytes(1572864), "2 MB");
    assert_eq!(format_bytes(2621440), "2 MB");
    assert_eq!(format_bytes(1073741823), "1024 MB");
    assert_eq!(format_bytes(1073741824), "1.0 GB");
    assert_eq!(format_bytes(4_400_000_000), "4.1 GB");
    assert_eq!(format_bytes(u64::MAX), "17179869184.0 GB");
}

#[test]
fn format_bytes_agrees_with_floating_point() {
    let mut samples: Vec<u64> = vec![1, 1023, 1048575, 1048576, 3 * 524288, 5 * 524288,
        1073741824 + 53687091, 1073741824 + 53687092, 1073741824 + 53687090,
        (1u64 << 53) - 1, 1u64 << 53, (1u64 << 53) + 1, (1u64 << 54) + 2, (1u64 << 54) + 6,
        u64::MAX - 1, u64::MAX];
    let mut x: u64 = 12345;
    for _ in 0..20000 {
        x = x.wrapping_mul(6364136223846793005).wrapping_add(1442695040888963407);
        samples.push(x >> (x % 64));
    }
    for b in samples {
        assert_eq!(format_bytes(b), format_bytes_f64(b), "bytes {}", b);
    }
}

// ---- status ----

#[test]
fn step_colors_group_steps() {
    assert_eq!(step_color("tools"), "\x1b[36m");
    assert_eq!(step_color("web_search"), "\x1b[36m");
    assert_eq!(step_color("explore"), "\x1b[36m");
    assert_eq!(step_color("plan"), "\x1b[35m");
    assert_eq!(step_color("model"), "\x1b[33m");
    assert_eq!(step_color("preparing"), "\x1b[32m");
    assert_eq!(step_color("streaming"), "\x1b[32m");
    assert_eq!(step_color("error"), "\x1b[31m");
    assert_eq!(step_color("stats"), "\x1b[34m");
    assert_eq!(step_color(""), "\x1b[34m");
}

#[test]
fn status_lines_plain_and_colored() {
    assert_eq!(status_line("plan", "thinking", false), "[plan] thinking");
    assert_eq!(
        status_line("plan", "thinking", true),
        "\x1b[2m[\x1b[0m\x1b[35mplan\x1b[0m\x1b[2m]\x1b[0m thinking"
    );
}

// ---- messages ----

#[test]
fn failure_messages() {
    assert_eq!(failure("list projects", "connection refused"), "Failed to list projects: connection refused");
    assert_eq!(error_line("boom"), "Error: boom");
    assert_eq!(rejection_message("create project", "409 Conflict", Some("exists")),
        "Failed to create project: exists (409 Conflict)");
    assert_eq!(rejection_message("create project", "409 Conflict", None),
        "Failed to create project: 409 Conflict");
}

#[test]
fn error_message_uses_http_status_text() {
    assert_eq!(error_message("delete project", 404, Some("Project not found")),
        "Failed to delete project: Project not found (404 Not Found)");
    assert_eq!(error_message("list projects", 500, None),
        "Failed to list projects: 500 Internal Server Error");
    assert_eq!(error_message("list projects", 599, None),
        "Failed to list projects: 599 <unknown status code>");
}

#[test]
fn success_codes_are_2xx() {
    assert!(is_success(200));
    assert!(is_success(204));
    assert!(is_success(299));
    assert!(!is_success(199));
    assert!(!is_success(300));
    assert!(!is_success(404));
}

// ---- commands ----

#[test]
fn create_plans() {
    match plan_create(Some("n".into()), Some("d".into()), None) {
        Ok(CreatePlan::Blank { name, description }) => {
            assert_eq!(name, "n");
            assert_eq!(description.as_deref(), Some("d"));
        }
        _ => panic!("expected a blank project"),
    }
    match plan_create(Some("renamed".into()), None, Some("p.zip".into())) {
        Ok(CreatePlan::Import { path, rename }) => {
            assert_eq!(path, "p.zip");
            assert_eq!(rename.as_deref(), Some("renamed"));
        }
        _ => panic!("expected an import"),
    }
    match plan_create(None, None, None) {
        Err(e) => assert_eq!(e, "--name is required when creating a project without --import"),
        _ => panic!("expected an error"),
    }
    let body = new_project("n".into(), None);
    assert!(!body.system);
    assert!(body.skills.is_empty());
    assert_eq!(created_line(PROJECT_CREATED), "Project created successfully");
}

// ---- projects ----

#[test]
fn projects_table_rows() {
    let ps = vec![project("a1", "Alpha", false, false), project("s1", "System", true, false),
        ProjectRecord { id: None, name: None, system: None, current: None }];
    let t = projects_table(&ps);
    assert_eq!(t.len(), 4);
    assert_eq!(cells(&t[0]), vec![plain("ID"), plain("Name"), plain("System")]);
    assert_eq!(cells(&t[1]), vec![plain("a1"), plain("Alpha"), plain("false")]);
    assert_eq!(cells(&t[2]), vec![plain("s1"), plain("System"), ("true".to_string(), CellColor::Magenta)]);
    assert_eq!(cells(&t[3]), vec![plain(""), plain(""), plain("false")]);
    assert_eq!(project_id(&ps[2]), "");
    assert_eq!(project_name(&ps[0]), "Alpha");
}

#[test]
fn listing_must_be_an_array() {
    assert!(listed_projects(Some(vec![])).unwrap().is_empty());
    assert_eq!(listed_projects(None).err().unwrap(), "Expected projects to be an array");
}

#[test]
fn default_is_first_current_project() {
    let ps = vec![project("a", "A", false, false), project("b", "B", false, true),
        project("c", "C", false, true)];
    assert_eq!(default_project_index(&ps), 1);
    let none = vec![project("a", "A", false, false), project("b", "B", false, false)];
    assert_eq!(default_project_index(&none), 0);
}

#[test]
fn selection_without_asking() {
    assert_eq!(start_selection(&vec![], true).err().unwrap(), NO_PROJECTS);
    let one = vec![project("a", "Alpha", false, false)];
    match start_selection(&one, true).unwrap() {
        SelectionStart::Chosen { index, announcement } => {
            assert_eq!(index, 0);
            assert_eq!(announcement, "project: Alpha");
        }
        _ => panic!("a single project is taken without asking"),
    }
    let two = vec![project("a", "Alpha", false, false), project("b", "Beta", false, true)];
    match start_selection(&two, false).unwrap() {
        SelectionStart::Chosen { index, announcement } => {
            assert_eq!(index, 1);
            assert_eq!(announcement, "project: Beta");
        }
        _ => panic!("piped input takes the current project"),
    }
}

#[test]
fn selection_menu_and_answers() {
    let two = vec![project("a", "Alpha", false, false), project("b", "Beta", false, true)];
    match start_selection(&two, true).unwrap() {
        SelectionStart::Ask { default, menu, prompt } => {
            assert_eq!(default, 1);
            assert_eq!(menu, vec!["  1. Alpha".to_string(), "  2. Beta (current)".to_string()]);
            assert_eq!(prompt, "Select a project [2]: ");
        }
        _ => panic!("a terminal with several projects is asked"),
    }
    assert!(matches!(answer_selection(2, 1, None), Answer::Exit));
    assert!(matches!(answer_selection(2, 1, Some("\n")), Answer::Pick(1)));
    assert!(matches!(answer_selection(2, 1, Some(" 1 \n")), Answer::Pick(0)));
    assert!(matches!(answer_selection(2, 1, Some("+2\n")), Answer::Pick(1)));
    for bad in ["0\n", "3\n", "x\n", "-1\n"] {
        match answer_selection(2, 1, Some(bad)) {
            Answer::Retry(m) => assert_eq!(m, "Enter a number from 1 to 2"),
            _ => panic!("{:?} is not a menu number", bad),
        }
    }
}

// ---- agent ----

fn health(loaded: bool) -> Health {
    Health {
        status: Some("ok".into()),
        model_name: Some("qwen".into()),
        model_loaded: Some(loaded),
        quantization: Some("Q4_K_M".into()),
        n_ctx: Some(4096),
        model_size_bytes: Some(4_400_000_000),
    }
}

#[test]
fn health_reports() {
    assert_eq!(endpoint_line("http://localhost:38540"), "Endpoint: http://localhost:38540");
    let down = health_report(&None);
    assert!(!down.running);
    assert_eq!(down.lines, vec![NOT_RUNNING.to_string()]);
    assert_eq!(NOT_RUNNING, "Status:   not running");
    let up = health_report(&Some(health(true)));
    assert!(up.running);
    assert_eq!(up.lines, vec!["Status:   ok".to_string(),
        "Model:    qwen (Q4_K_M, 4096 ctx, 4.1 GB)".to_string()]);
    let unloaded = health_report(&Some(health(false)));
    assert_eq!(unloaded.lines[1], "Model:    not loaded");
    let bare = Health { status: None, model_name: None, model_loaded: Some(true),
        quantization: None, n_ctx: None, model_size_bytes: None };
    assert_eq!(health_report(&Some(bare)).lines,
        vec!["Status:   unknown".to_string(), "Model:    ".to_string()]);
}

fn agent(id: &str, alive: bool) -> AgentRecord {
    AgentRecord {
        project_id: Some(id.into()),
        pid: "4242".into(),
        port: "9100".into(),
        alive: Some(alive),
        idle: "12s".into(),
        rss_bytes: Some(209715200),
    }
}

#[test]
fn agents_overview_cases() {
    let unsupervised = AgentsInfo { supervised: Some(false), supervisor_pid: "1".into(),
        supervisor_rss: None, agents: None };
    assert!(matches!(agents_overview(&unsupervised), AgentsOverview::Unsupervised));
    let idle = AgentsInfo { supervised: Some(true), supervisor_pid: "77".into(),
        supervisor_rss: Some(104857600), agents: Some(vec![]) };
    match agents_overview(&idle) {
        AgentsOverview::NoAgents { process_line } => assert_eq!(process_line, "Process:  pid 77, 100 MB"),
        _ => panic!("no agents"),
    }
    assert_eq!(NO_AGENTS, "No project agents running");
    let busy = AgentsInfo { supervised: Some(true), supervisor_pid: "null".into(),
        supervisor_rss: None, agents: Some(vec![agent("a", true)]) };
    match agents_overview(&busy) {
        AgentsOverview::Agents { process_line } => assert_eq!(process_line, "Process:  pid null, 0 MB"),
        _ => panic!("agents"),
    }
}

#[test]
fn agents_table_names_projects() {
    let listing = Some(vec![project("a", "Alpha", false, false), project("a", "Alpha 2", false, false),
        project("b", "Beta", false, false)]);
    assert_eq!(agent_project_name("a", &listing), "Alpha 2");
    assert_eq!(agent_project_name("zz", &listing), "zz");
    assert_eq!(agent_project_name("a", &None), "a");
    let t = agents_table(&vec![agent("a", true), agent("zz", false)], &listing);
    assert_eq!(t.len(), 3);
    assert_eq!(cells(&t[0]), vec![plain("Project"), plain("PID"), plain("Port"), plain("Alive"),
        plain("Idle"), plain("Memory")]);
    assert_eq!(cells(&t[1]), vec![plain("Alpha 2"), plain("4242"), plain("9100"),
        ("true".to_string(), CellColor::Green), plain("12s"), plain("200 MB")]);
    assert_eq!(cells(&t[2])[0], plain("zz"));
    assert_eq!(cells(&t[2])[3], ("false".to_string(), CellColor::Red));
}

// ---- chat ----

#[test]
fn sessions() {
    assert_eq!(session_id(Some("s-1".into()), 5, 6), "s-1");
    assert_eq!(session_id(None, 1700000000123456789, 4321), "cli-1700000000123456789-4321");
    assert_eq!(session_line("s-1"), "session: s-1");
}

#[test]
fn opening_prompt_skips_blank() {
    assert_eq!(opening_prompt(None), None);
    assert_eq!(opening_prompt(Some("  ".into())), None);
    assert_eq!(opening_prompt(Some(" hi ".into())), Some(" hi ".to_string()));
    assert_eq!(echo_line("hi"), "> hi");
}

#[test]
fn lines_at_the_prompt() {
    assert!(matches!(classify_line(None), LineAction::End));
    assert!(matches!(classify_line(Some("\n")), LineAction::Skip));
    for quit in ["/quit\n", "/exit", " /q ", "exit", "Exit\n"] {
        assert!(matches!(classify_line(Some(quit)), LineAction::End), "{:?}", quit);
    }
    match classify_line(Some("  what next?\n")) {
        LineAction::Send(m) => assert_eq!(m, "what next?"),
        _ => panic!("a message is sent"),
    }
    assert!(matches!(classify_line(Some("EXIT")), LineAction::Send(_)));
}

#[test]
fn chat_requests() {
    let chat = ChatSession::new(None, 42, 7, "p1".to_string());
    assert_eq!(chat.announcement(), "session: cli-42-7");
    let r = chat.turn_request("hello");
    assert_eq!(r.model, "sl-mini");
    assert_eq!(r.role, "user");
    assert_eq!(r.content, "hello");
    assert_eq!(r.project_id, "p1");
    assert_eq!(r.session_id, "cli-42-7");
    assert!(r.stream);
    let later = chat.turn_request("and then?");
    assert_eq!(later.session_id, r.session_id);
    assert_eq!(later.project_id, r.project_id);
    let resumed = ChatSession::new(Some("s-9".to_string()), 42, 7, "p2".to_string());
    assert_eq!(resumed.turn_request("x").session_id, "s-9");
    assert_eq!(resumed.turn_request("x").project_id, "p2");
}

fn event(object: Option<&str>, content: Option<&str>, finished: bool, message: Option<&str>,
    step: Option<&str>) -> StreamEvent {
    StreamEvent {
        object: object.map(String::from),
        content: content.map(String::from),
        finished,
        message: message.map(String::from),
        step: step.map(String::from),
    }
}

#[test]
fn stream_events() {
    let o = handle_event(3, &event(Some("chat.completion.chunk"), Some("Hi"), false, None, None));
    assert_eq!(o.tokens, 4);
    assert!(!o.stop);
    assert!(matches!(o.output, EventOutput::Text(ref t) if t == "Hi"));
    let o = handle_event(4, &event(Some("chat.completion.chunk"), None, true, None, None));
    assert_eq!(o.tokens, 4);
    assert!(o.stop);
    assert!(matches!(o.output, EventOutput::Nothing));
    let o = handle_event(4, &event(Some("chat.completion.chunk"), Some("!"), true, None, None));
    assert_eq!(o.tokens, 5);
    assert!(o.stop);
    let o = handle_event(4, &event(Some("chat.status"), None, true, Some("  searching  "), Some("web_search")));
    assert!(!o.stop);
    match o.output {
        EventOutput::Status { step, message } => {
            assert_eq!(step, "web_search");
            assert_eq!(message, "searching");
        }
        _ => panic!("status"),
    }
    let o = handle_event(4, &event(Some("chat.status"), None, false, Some("   "), None));
    assert!(matches!(o.output, EventOutput::Nothing));
    let o = handle_event(4, &event(Some("chat.status"), None, false, Some("x"), None));
    assert!(matches!(o.output, EventOutput::Status { ref step, .. } if step.is_empty()));
    let o = handle_event(4, &event(None, Some("ignored"), true, None, None));
    assert!(!o.stop);
    assert_eq!(o.tokens, 4);
}

#[test]
fn turn_retries_once_when_nothing_streamed() {
    let dropped = start_failed("connection reset");
    assert_eq!(dropped.message, "Failed to run: connection reset");
    match after_attempt(1, Err(dropped)) {
        TurnStep::Retry { notice } => {
            assert_eq!(notice, "connection dropped, retrying: Failed to run: connection reset")
        }
        _ => panic!("first failure without content is retried"),
    }
    match after_attempt(2, Err(TurnFailure { message: "again".into(), tokens: 0 })) {
        TurnStep::Done(Err(e)) => assert_eq!(e, "again"),
        _ => panic!("the second attempt is final"),
    }
    let partial = stream_failed("eof", 7);
    assert_eq!(partial.message, "Failed to read stream: eof");
    match after_attempt(1, Err(partial)) {
        TurnStep::Done(Err(e)) => assert_eq!(e, "Failed to read stream: eof"),
        _ => panic!("a failure after content is not retried"),
    }
    assert!(matches!(after_attempt(1, Ok(())), TurnStep::Done(Ok(()))));
    assert!(matches!(turn_error_action(true), TurnErrorAction::Report));
    assert!(matches!(turn_error_action(false), TurnErrorAction::Abort));
}

#[test]
fn whitespace_is_unicode_white_space() {
    for u in 0u32..=0x10FFFF {
        if let Some(c) = char::from_u32(u) {
            let s = c.to_string();
            assert_eq!(blank(&s), c.is_whitespace(), "U+{:04X}", u);
        }
    }
}

#[test]
fn parse_usize_agrees_with_std_on_generated_inputs() {
    let alphabet = ['0', '1', '9', '+', '-', ' ', 'a', '٣'];
    let mut x: u64 = 99;
    for _ in 0..20000 {
        x = x.wrapping_mul(6364136223846793005).wrapping_add(1442695040888963407);
        let len = (x >> 60) as usize;
        let s: String = (0..len).map(|i| alphabet[((x >> (i * 3)) & 7) as usize]).collect();
        assert_eq!(parse_usize(&s), s.parse::<usize>().ok(), "input {:?}", s);
    }
}

fn shown_tenths(text: &str) -> u64 {
    if let Some(gb) = text.strip_suffix(" GB") {
        let (whole, frac) = gb.split_once('.').unwrap();
        (whole.parse::<u64>().unwrap() * 10 + frac.parse::<u64>().unwrap()) * 1024
    } else {
        text.strip_suffix(" MB").unwrap().parse::<u64>().unwrap() * 10
    }
}

#[test]
fn format_bytes_never_decreases() {
    let mut samples: Vec<u64> = vec![0, 1, 524287, 524288, 524289, 1073741823, 1073741824,
        1073741825, (1u64 << 53) - 1, 1u64 << 53, (1u64 << 53) + 1, u64::MAX];
    let mut x: u64 = 7;
    for _ in 0..20000 {
        x = x.wrapping_mul(6364136223846793005).wrapping_add(1442695040888963407);
        samples.push(x >> (x % 64));
    }
    samples.sort();
    for pair in samples.windows(2) {
        assert!(shown_tenths(&format_bytes(pair[0])) <= shown_tenths(&format_bytes(pair[1])),
            "{} then {}", pair[0], pair[1]);
    }
    assert_eq!(shown_tenths(&format_bytes(1073741823)), shown_tenths(&format_bytes(1073741824)));
}
