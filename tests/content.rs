use nova_metrics::content::{
    battery_body, body, needed_readings, readings_fit, render_panels, Need, Readings, NO_BATTERY_TEXT,
};
use nova_metrics::metrics::{
    aggregate_cpu_usage, BatterySnapshot, BatteryState, CpuSnapshot, MemorySnapshot, Summary,
};
use nova_metrics::navigation::Screen;
use nova_metrics::text::{decimal_string, fixed2_string};

#[test]
fn average_of_three_cores() {
    assert_eq!(aggregate_cpu_usage(&vec![1000, 2000, 3000]), 2000);
}

#[test]
fn average_rounds_down_and_handles_edges() {
    assert_eq!(aggregate_cpu_usage(&vec![]), 0);
    assert_eq!(aggregate_cpu_usage(&vec![1, 2]), 2);
    assert_eq!(aggregate_cpu_usage(&vec![1, 2, 2]), 2);
    assert_eq!(aggregate_cpu_usage(&vec![1, 1, 2]), 1);
    assert_eq!(aggregate_cpu_usage(&vec![u32::MAX, u32::MAX]), u32::MAX);
}

#[test]
fn decimal_and_fixed_point() {
    assert_eq!(decimal_string(0), "0");
    assert_eq!(decimal_string(40960), "40960");
    assert_eq!(decimal_string(u64::MAX), "18446744073709551615");
    assert_eq!(fixed2_string(2000), "20.00");
    assert_eq!(fixed2_string(5), "0.05");
    assert_eq!(fixed2_string(12345), "123.45");
}

#[test]
fn no_battery_gives_fallback_text() {
    let s = battery_body(&None);
    assert_eq!(s, "Battery Details:\n- No battery information available.");
    assert_eq!(s, NO_BATTERY_TEXT);
    assert!(!s.chars().any(|c| c.is_ascii_digit()));
    let p = render_panels(Screen::BatteryDetails, &Readings::Battery(None));
    assert_eq!(p.body.text, NO_BATTERY_TEXT);
}

#[test]
fn battery_details_text() {
    let b = BatterySnapshot {
        state: BatteryState::Discharging,
        energy_centi_wh: 4210,
        temperature_centi_c: Some(-150),
    };
    assert_eq!(
        battery_body(&Some(b)),
        "Battery Details:\n- Status: Discharging\n- Energy: 42.1 Wh\n- Temperature: -1.5\u{b0}C"
    );
    let b = BatterySnapshot { state: BatteryState::Full, energy_centi_wh: 0, temperature_centi_c: None };
    assert_eq!(
        battery_body(&Some(b)),
        "Battery Details:\n- Status: Full\n- Energy: 0 Wh\n- Temperature: 0\u{b0}C"
    );
}

#[test]
fn battery_values_in_shortest_form() {
    let b = BatterySnapshot {
        state: BatteryState::Charging,
        energy_centi_wh: 4212,
        temperature_centi_c: Some(3000),
    };
    assert_eq!(
        battery_body(&Some(b)),
        "Battery Details:\n- Status: Charging\n- Energy: 42.12 Wh\n- Temperature: 30\u{b0}C"
    );
    let b = BatterySnapshot {
        state: BatteryState::Unknown,
        energy_centi_wh: 5,
        temperature_centi_c: Some(-7),
    };
    assert_eq!(
        battery_body(&Some(b)),
        "Battery Details:\n- Status: Unknown\n- Energy: 0.05 Wh\n- Temperature: -0.07\u{b0}C"
    );
}

#[test]
fn summary_text_on_metrics_screen() {
    let m = Summary { cpu_usage_centi: 2000, used_memory_kb: 40960, battery_centi: Some(8750) };
    let p = render_panels(Screen::Metrics, &Readings::Summary(m));
    assert_eq!(p.body.text, "CPU: 20.00%\nMemory: 40960 KB\nBattery: 87.50%");
    assert!(p.body.highlighted);
    assert!(!p.header.highlighted);
    let m = Summary { cpu_usage_centi: 1, used_memory_kb: 0, battery_centi: None };
    assert_eq!(body(Screen::Metrics, &Readings::Summary(m)), "CPU: 0.01%\nMemory: 0 KB\nBattery: 0.00%");
}

#[test]
fn cpu_and_memory_details_text() {
    let c = CpuSnapshot { name: "Example CPU".to_string(), frequency_mhz: 2400, usage_centi: 1234 };
    assert_eq!(
        body(Screen::CPUDetails, &Readings::Cpu(c)),
        "CPU Details:\n- Name: Example CPU\n- Frequency: 2400 MHz\n- Usage: 12.34%"
    );
    let m = MemorySnapshot { total_kb: 16000, used_kb: 6000, free_kb: 10000 };
    assert_eq!(
        body(Screen::MemoryDetails, &Readings::Memory(m)),
        "Memory Details:\n- Total: 16000 KB\n- Used: 6000 KB\n- Free: 10000 KB"
    );
}

#[test]
fn static_panels_and_highlighting() {
    let p = render_panels(Screen::Welcome, &Readings::Nothing);
    assert_eq!(p.header.title, "Welcome");
    assert_eq!(p.header.text, "NovaMetrics");
    assert!(p.header.highlighted);
    assert!(!p.body.highlighted);
    assert_eq!(p.footer.text, "Use arrow keys to navigate. Press 'q' to quit.");
    assert!(!p.footer.highlighted);
    let p = render_panels(Screen::Instructions, &Readings::Nothing);
    assert!(p.body.highlighted);
    assert!(p.body.text.starts_with("Instructions:"));
    let p = render_panels(Screen::DetailedMetrics, &Readings::Nothing);
    assert_eq!(p.body.text, "Detailed Metrics:\n1. CPU\n2. Memory\n3. Battery");
    assert!(!p.body.highlighted);
}

#[test]
fn needs_match_screens() {
    assert_eq!(needed_readings(Screen::Metrics), Need::Summary);
    assert_eq!(needed_readings(Screen::CPUDetails), Need::Cpu);
    assert_eq!(needed_readings(Screen::MemoryDetails), Need::Memory);
    assert_eq!(needed_readings(Screen::BatteryDetails), Need::Battery);
    assert_eq!(needed_readings(Screen::Welcome), Need::Nothing);
    assert!(readings_fit(Screen::BatteryDetails, &Readings::Battery(None)));
    assert!(!readings_fit(Screen::Welcome, &Readings::Battery(None)));
    assert!(readings_fit(Screen::Instructions, &Readings::Nothing));
}
