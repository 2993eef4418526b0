use nvidia_smi_exporter::exporter::handle_metrics;
use nvidia_smi_exporter::exporter::new_gpu_registry;
use nvidia_smi_exporter::exporter::scrape;
use nvidia_smi_exporter::registry::Registry;
use nvidia_smi_exporter::render::render;
use nvidia_smi_exporter::sample::RowError;
use nvidia_smi_exporter::sample::ScrapeError;
use nvidia_smi_exporter::value::GaugeValue;

const ROW0: &str = "0, Tesla T4, 450.1, 90.1, 15109, 123, 0, 7.5, 45, 5, 30, P0, 70.0, 20.5, 300,5000,800,1500,6000";
const ROW1: &str = "1, Tesla T4, 450.1, 90.1, 15109, 200, 1, 7.5, 50, 10, 35, P8, 70.0, N/A, 300,5000,800,1500,6000";

fn count(hay: &str, needle: &str) -> usize {
    let mut n = 0;
    let mut rest = hay;
    while let Some(p) = rest.find(needle) {
        n += 1;
        rest = &rest[p + needle.len()..];
    }
    n
}

#[test]
fn exact_exposition_of_a_small_registry() {
    let mut r = Registry::new();
    r.register(String::from("t"), String::from("help text."), vec![String::from("index")])
        .unwrap();
    r.set("t", vec![String::from("0")], GaugeValue::from_i64(5));
    assert_eq!(render(&r), "# HELP t help text.\n# TYPE t gauge\nt{index=\"0\"} 5\n");
}

#[test]
fn exposition_of_a_metric_without_labels() {
    let mut r = Registry::new();
    r.register(String::from("up"), String::from("always one."), vec![]).unwrap();
    r.set("up", vec![], GaugeValue::from_i64(1));
    assert_eq!(render(&r), "# HELP up always one.\n# TYPE up gauge\nup 1\n");
}

#[test]
fn registry_refuses_duplicate_names() {
    let mut r = Registry::new();
    assert!(r.register(String::from("a"), String::from("help a"), vec![]).is_ok());
    assert!(r.register(String::from("b"), String::from("help b"), vec![]).is_ok());
    assert!(r.register(String::from("a"), String::from("again"), vec![]).is_err());
}

#[test]
fn set_creates_then_overwrites() {
    let mut r = Registry::new();
    r.register(String::from("m"), String::from("h"), vec![String::from("index")]).unwrap();
    r.set("m", vec![String::from("0")], GaugeValue::from_i64(1));
    r.set("m", vec![String::from("0")], GaugeValue::from_i64(2));
    let text = render(&r);
    assert_eq!(count(&text, "m{index=\"0\"} "), 1);
    assert!(text.contains("m{index=\"0\"} 2\n"));
}

#[test]
fn empty_output_renders_headers_only() {
    let mut reg = new_gpu_registry();
    assert!(scrape(&mut reg, "  \n ").is_ok());
    let text = render(&reg);
    assert!(text.contains("# HELP nvidia_smi_gpu_info GPU common information.\n"));
    assert!(text.contains("# TYPE nvidia_smi_gpu_info gauge\n"));
    assert!(text.contains("# TYPE nvidia_smi_gpu_clock_video gauge\n"));
    assert_eq!(count(&text, "index=\""), 0);
}

#[test]
fn two_devices_make_two_label_sets() {
    let mut reg = new_gpu_registry();
    let out = format!("{}\n{}", ROW0, ROW1);
    assert!(scrape(&mut reg, &out).is_ok());
    let text = render(&reg);
    assert!(text.contains("nvidia_smi_gpu_used_memory{index=\"0\"} 123\n"));
    assert!(text.contains("nvidia_smi_gpu_used_memory{index=\"1\"} 200\n"));
    assert!(text.contains("nvidia_smi_gpu_performance_state{index=\"0\"} 0\n"));
    assert!(text.contains("nvidia_smi_gpu_performance_state{index=\"1\"} 8\n"));
    assert!(text.contains("nvidia_smi_gpu_power_draw{index=\"0\"} 20.5\n"));
    assert!(text.contains("nvidia_smi_gpu_power_draw{index=\"1\"} 0\n"));
    assert!(text.contains("nvidia_smi_gpu_cuda_specification{index=\"0\"} 7.5\n"));
    assert!(text.contains("nvidia_smi_gpu_power_limit{index=\"1\"} 70.0\n"));
    assert!(text.contains(
        "nvidia_smi_gpu_info{index=\"0\",name=\"Tesla T4\",driver_version=\"450.1\",vbios_version=\"90.1\"} 1\n"
    ));
    assert!(text.contains(
        "nvidia_smi_gpu_info{index=\"1\",name=\"Tesla T4\",driver_version=\"450.1\",vbios_version=\"90.1\"} 1\n"
    ));
}

#[test]
fn malformed_scrape_fails_and_next_succeeds() {
    let mut reg = new_gpu_registry();
    assert!(scrape(&mut reg, ROW0).is_ok());
    let before = render(&reg);
    let bad = "0, Tesla T4, 450.1, 90.1, xx, 123, 0, 7.5, 45, 5, 30, P0, 70.0, 20.5, 300,5000,800,1500,6000";
    let err = scrape(&mut reg, bad).unwrap_err();
    assert_eq!(err, ScrapeError { line: 0, kind: RowError::Field(4) });
    assert_eq!(render(&reg), before);
    assert!(scrape(&mut reg, ROW1).is_ok());
    assert!(render(&reg).contains("nvidia_smi_gpu_used_memory{index=\"1\"} 200\n"));
}

#[test]
fn stale_device_keeps_its_last_values() {
    let mut reg = new_gpu_registry();
    let out = format!("{}\n{}", ROW0, ROW1);
    assert!(scrape(&mut reg, &out).is_ok());
    let newer = "0, Tesla T4, 450.1, 90.1, 15109, 999, 2, 7.5, 60, 50, 40, P2, 70.0, 33.0, 310,5100,810,1500,6000";
    assert!(scrape(&mut reg, newer).is_ok());
    let text = render(&reg);
    assert!(text.contains("nvidia_smi_gpu_used_memory{index=\"0\"} 999\n"));
    assert!(text.contains("nvidia_smi_gpu_used_memory{index=\"1\"} 200\n"));
    assert!(text.contains("nvidia_smi_gpu_temperature{index=\"0\"} 60\n"));
    assert!(text.contains("nvidia_smi_gpu_temperature{index=\"1\"} 50\n"));
}

#[test]
fn last_row_wins_for_one_device() {
    let mut reg = new_gpu_registry();
    let twice = format!(
        "{}\n{}",
        ROW0,
        "0, Tesla T4, 450.1, 90.1, 15109, 777, 0, 7.5, 45, 5, 30, P0, 70.0, 20.5, 300,5000,800,1500,6000"
    );
    assert!(scrape(&mut reg, &twice).is_ok());
    let text = render(&reg);
    assert_eq!(count(&text, "nvidia_smi_gpu_used_memory{index=\"0\"} "), 1);
    assert!(text.contains("nvidia_smi_gpu_used_memory{index=\"0\"} 777\n"));
}

#[test]
fn exposition_has_header_and_one_line_per_combination() {
    let mut reg = new_gpu_registry();
    assert!(scrape(&mut reg, ROW0).is_ok());
    assert!(scrape(&mut reg, ROW0).is_ok());
    let text = render(&reg);
    assert_eq!(count(&text, "# HELP nvidia_smi_gpu_used_memory "), 1);
    assert_eq!(count(&text, "# TYPE nvidia_smi_gpu_used_memory gauge\n"), 1);
    assert_eq!(count(&text, "nvidia_smi_gpu_used_memory{index=\"0\"} "), 1);
    assert_eq!(count(&text, "nvidia_smi_gpu_info{index=\"0\""), 1);
    assert_eq!(count(&text, "# HELP "), 16);
    assert_eq!(count(&text, "# TYPE "), 16);
}

#[test]
fn handle_metrics_renders_after_update() {
    let mut reg = new_gpu_registry();
    let text = handle_metrics(&mut reg, ROW0).unwrap();
    assert!(text.contains("nvidia_smi_gpu_total_memory{index=\"0\"} 15109\n"));
    assert!(text.contains("nvidia_smi_gpu_clock_video{index=\"0\"} 800\n"));
    assert!(text.contains("nvidia_smi_gpu_clock_max_graphics{index=\"0\"} 1500\n"));
    assert_eq!(text, render(&reg));
    let err = handle_metrics(&mut reg, "a,b").unwrap_err();
    assert_eq!(err.line, 0);
    assert_eq!(err.kind, RowError::Length);
}
