use lambda_endpoint::definition::Trace;
use lambda_endpoint::script::{ending, stanza, Backend};
use lambda_endpoint::text::decimal;

fn definition(process: &str, functions: &[&str]) -> Trace {
    Trace {
        id: 1,
        process: process.to_string(),
        function_list: functions.iter().map(|f| f.to_string()).collect(),
        environment: vec![],
        values: vec![],
        options: vec![],
    }
}

const STAP_MAIN: &str = "\nprobe process(\"nginx\").function(\"main\").call {\n    printf(\"probe: %s\", ppfunc());\n    print_usyms(ucallers(5));\n}\n";

#[test]
fn test_to_content() {
    let t = definition("nginx", &["main"]);
    assert_eq!(t.to_content_stap(), STAP_MAIN);
}

#[test]
fn test_to_file() {
    let t = definition("nginx", &["main"]);
    let script = t.to_script(Backend::Stap, 5).unwrap();
    assert!(script.name.starts_with("/tmp/"));
    assert!(script.name.ends_with(".stap"));
    assert_eq!(script.name.len(), "/tmp/".len() + 36 + ".stap".len());
    assert_eq!(script.content, format!("{}probe timer.s(5) {{exit(); }}\n", STAP_MAIN));
}

#[test]
fn script_at_given_identifier() {
    let t = definition("nginx", &["main"]);
    let script = t.to_script_at(Backend::Bpf, 7, "0123");
    assert_eq!(script.name, "/tmp/0123.bpf");
    assert!(script.content.ends_with("interval:s:(7) { exit(); }\n"));
}

#[test]
fn stanzas_follow_list_order() {
    let t = definition("app", &["first", "second", "third"]);
    let content = t.to_content_bpf();
    let expected = format!(
        "{}{}{}",
        stanza(Backend::Bpf, "app", "first"),
        stanza(Backend::Bpf, "app", "second"),
        stanza(Backend::Bpf, "app", "third")
    );
    assert_eq!(content, expected);
    assert_eq!(content.matches("uprobe:app:").count(), 3);
    let script = t.to_script(Backend::Bpf, 30).unwrap();
    assert_eq!(script.content.matches("interval:s:(30) { exit(); }\n").count(), 1);
    assert!(script.content.ends_with("interval:s:(30) { exit(); }\n"));
}

#[test]
fn bpf_scenario_for_nginx() {
    let t = definition("nginx", &["handle_request"]);
    let script = t.to_script(Backend::Bpf, 5).unwrap();
    assert_eq!(
        script.content,
        "uprobe:nginx:handle_request { printf(\"probe: %s\\n%s\\n\", probe, ustack(perf, 5)); }interval:s:(5) { exit(); }\n"
    );
    assert!(!script.name.is_empty());
    assert!(script.name.ends_with(".bpf"));
}

#[test]
fn empty_function_list_gives_terminator_only() {
    let t = definition("nginx", &[]);
    assert_eq!(t.to_content_stap(), "");
    assert_eq!(t.to_script(Backend::Stap, 1).unwrap().content, "probe timer.s(1) {exit(); }\n");
}

#[test]
fn endings_render_durations() {
    assert_eq!(ending(Backend::Stap, 0), "probe timer.s(0) {exit(); }\n");
    assert_eq!(ending(Backend::Bpf, 1234567), "interval:s:(1234567) { exit(); }\n");
    assert_eq!(decimal(0), "0");
    assert_eq!(decimal(10), "10");
    assert_eq!(decimal(u64::MAX), "18446744073709551615");
}

#[test]
fn script_names_differ_between_calls() {
    let t = definition("nginx", &["main"]);
    let a = t.to_script(Backend::Bpf, 5).unwrap();
    let b = t.to_script(Backend::Bpf, 5).unwrap();
    assert_ne!(a.name, b.name);
}

#[test]
fn backend_names() {
    assert_eq!(Backend::from_name("STAP"), Some(Backend::Stap));
    assert_eq!(Backend::from_name("BPF"), Some(Backend::Bpf));
    assert_eq!(Backend::from_name("bpf"), None);
    assert_eq!(Backend::from_name(""), None);
}
