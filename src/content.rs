//! What each panel shows on each screen.
use vstd::prelude::*;
use crate::navigation::Screen;
use crate::metrics::{Summary, CpuSnapshot, MemorySnapshot, BatteryState, BatterySnapshot};
use crate::text::{decimal, fixed2, short2, signed_short2, push_decimal, push_fixed2, push_short2, push_signed_short2};

verus! {

pub const HEADER_TITLE: &'static str = "Welcome";
pub const HEADER_TEXT: &'static str = "NovaMetrics";
pub const BODY_TITLE: &'static str = "Metrics";
pub const FOOTER_TITLE: &'static str = "Instructions";
pub const FOOTER_TEXT: &'static str = "Use arrow keys to navigate. Press 'q' to quit.";
pub const HELP_TEXT: &'static str = "Instructions:\n- Up / Down: move between screens\n- Enter: open the details\n- q: quit";
pub const DETAILED_MENU_TEXT: &'static str = "Detailed Metrics:\n1. CPU\n2. Memory\n3. Battery";
pub const NO_BATTERY_TEXT: &'static str = "Battery Details:\n- No battery information available.";

/// Which reading of the host a screen needs.
#[derive(Clone, Copy, Debug, PartialEq, Eq, Structural)]
pub enum Need {
    Nothing,
    Summary,
    Cpu,
    Memory,
    Battery,
}

/// The readings taken for one redraw.
#[derive(Clone, Debug)]
pub enum Readings {
    Nothing,
    Summary(Summary),
    Cpu(CpuSnapshot),
    Memory(MemorySnapshot),
    /// `None` where the host has no battery.
    Battery(Option<BatterySnapshot>),
}

pub open spec fn need_of(screen: Screen) -> Need {
    match screen {
        Screen::Metrics => Need::Summary,
        Screen::CPUDetails => Need::Cpu,
        Screen::MemoryDetails => Need::Memory,
        Screen::BatteryDetails => Need::Battery,
        _ => Need::Nothing,
    }
}

/// Whether `readings` are of the kind that `screen` needs.
pub open spec fn fits(screen: Screen, readings: Readings) -> bool {
    match (need_of(screen), readings) {
        (Need::Nothing, Readings::Nothing) => true,
        (Need::Summary, Readings::Summary(_)) => true,
        (Need::Cpu, Readings::Cpu(_)) => true,
        (Need::Memory, Readings::Memory(_)) => true,
        (Need::Battery, Readings::Battery(_)) => true,
        _ => false,
    }
}

pub open spec fn summary_text(m: Summary) -> Seq<char> {
    let battery = match m.battery_centi {
        Some(b) => b,
        None => 0,
    };
    "CPU: "@ + fixed2(m.cpu_usage_centi as nat) + "%\nMemory: "@ + decimal(m.used_memory_kb as nat)
        + " KB\nBattery: "@ + fixed2(battery as nat) + "%"@
}

pub open spec fn cpu_text(c: CpuSnapshot) -> Seq<char> {
    "CPU Details:\n- Name: "@ + c.name@ + "\n- Frequency: "@ + decimal(c.frequency_mhz as nat)
        + " MHz\n- Usage: "@ + fixed2(c.usage_centi as nat) + "%"@
}

pub open spec fn memory_text(m: MemorySnapshot) -> Seq<char> {
    "Memory Details:\n- Total: "@ + decimal(m.total_kb as nat) + " KB\n- Used: "@ + decimal(
        m.used_kb as nat,
    ) + " KB\n- Free: "@ + decimal(m.free_kb as nat) + " KB"@
}

pub open spec fn state_name(s: BatteryState) -> Seq<char> {
    match s {
        BatteryState::Unknown => "Unknown"@,
        BatteryState::Charging => "Charging"@,
        BatteryState::Discharging => "Discharging"@,
        BatteryState::Empty => "Empty"@,
        BatteryState::Full => "Full"@,
    }
}

pub open spec fn battery_text(b: Option<BatterySnapshot>) -> Seq<char> {
    match b {
        None => NO_BATTERY_TEXT@,
        Some(b) => {
            let t = match b.temperature_centi_c {
                Some(t) => t as int,
                None => 0,
            };
            "Battery Details:\n- Status: "@ + state_name(b.state) + "\n- Energy: "@ + short2(
                b.energy_centi_wh as nat,
            ) + " Wh\n- Temperature: "@ + signed_short2(t) + "\u{b0}C"@
        },
    }
}

/// The text of the body panel on `screen`, given readings of the kind it needs.
pub open spec fn body_text(screen: Screen, readings: Readings) -> Seq<char> {
    match readings {
        Readings::Summary(m) => summary_text(m),
        Readings::Cpu(c) => cpu_text(c),
        Readings::Memory(m) => memory_text(m),
        Readings::Battery(b) => battery_text(b),
        Readings::Nothing => if screen == Screen::DetailedMetrics {
            DETAILED_MENU_TEXT@
        } else {
            HELP_TEXT@
        },
    }
}

/// The reading of the host that a redraw of `screen` has to take.
pub fn needed_readings(screen: Screen) -> (r: Need)
    ensures
        r == need_of(screen),
{
    match screen {
        Screen::Metrics => Need::Summary,
        Screen::CPUDetails => Need::Cpu,
        Screen::MemoryDetails => Need::Memory,
        Screen::BatteryDetails => Need::Battery,
        _ => Need::Nothing,
    }
}

/// Whether `readings` are of the kind that `screen` needs.
pub fn readings_fit(screen: Screen, readings: &Readings) -> (r: bool)
    ensures
        r == fits(screen, *readings),
{
    match (needed_readings(screen), readings) {
        (Need::Nothing, Readings::Nothing) => true,
        (Need::Summary, Readings::Summary(_)) => true,
        (Need::Cpu, Readings::Cpu(_)) => true,
        (Need::Memory, Readings::Memory(_)) => true,
        (Need::Battery, Readings::Battery(_)) => true,
        _ => false,
    }
}

/// The body of the summary screen: load, memory in use, and battery charge
/// (`0.00` without a battery).
pub fn summary_body(m: &Summary) -> (r: String)
    ensures
        r@ == summary_text(*m),
{
    let battery = match m.battery_centi {
        Some(b) => b,
        None => 0,
    };
    let mut s = String::new();
    s.append("CPU: ");
    push_fixed2(&mut s, m.cpu_usage_centi);
    s.append("%\nMemory: ");
    push_decimal(&mut s, m.used_memory_kb);
    s.append(" KB\nBattery: ");
    push_fixed2(&mut s, battery);
    s.append("%");
    assert(s@ =~= summary_text(*m));
    s
}

/// The body of the processor screen.
pub fn cpu_body(c: &CpuSnapshot) -> (r: String)
    ensures
        r@ == cpu_text(*c),
{
    let mut s = String::new();
    s.append("CPU Details:\n- Name: ");
    s.append(c.name.as_str());
    s.append("\n- Frequency: ");
    push_decimal(&mut s, c.frequency_mhz);
    s.append(" MHz\n- Usage: ");
    push_fixed2(&mut s, c.usage_centi);
    s.append("%");
    assert(s@ =~= cpu_text(*c));
    s
}

/// The body of the memory screen.
pub fn memory_body(m: &MemorySnapshot) -> (r: String)
    ensures
        r@ == memory_text(*m),
{
    let mut s = String::new();
    s.append("Memory Details:\n- Total: ");
    push_decimal(&mut s, m.total_kb);
    s.append(" KB\n- Used: ");
    push_decimal(&mut s, m.used_kb);
    s.append(" KB\n- Free: ");
    push_decimal(&mut s, m.free_kb);
    s.append(" KB");
    assert(s@ =~= memory_text(*m));
    s
}

/// The name under which a battery state is shown.
pub fn battery_state_name(st: BatteryState) -> (r: &'static str)
    ensures
        r@ == state_name(st),
{
    match st {
        BatteryState::Unknown => "Unknown",
        BatteryState::Charging => "Charging",
        BatteryState::Discharging => "Discharging",
        BatteryState::Empty => "Empty",
        BatteryState::Full => "Full",
    }
}

/// The body of the battery screen: state, energy and temperature (`0` where
/// none is reported), each written the shortest way, or the fallback message where there is no battery.
pub fn battery_body(b: &Option<BatterySnapshot>) -> (r: String)
    ensures
        r@ == battery_text(*b),
{
    match b {
        None => String::from_str(NO_BATTERY_TEXT),
        Some(snap) => {
            let t: i64 = match snap.temperature_centi_c {
                Some(t) => t,
                None => 0,
            };
            let mut s = String::new();
            s.append("Battery Details:\n- Status: ");
            s.append(battery_state_name(snap.state));
            s.append("\n- Energy: ");
            push_short2(&mut s, snap.energy_centi_wh);
            s.append(" Wh\n- Temperature: ");
            push_signed_short2(&mut s, t);
            s.append("\u{b0}C");
            assert(s@ =~= battery_text(*b));
            s
        },
    }
}

/// The text of the body panel on `screen`.
pub fn body(screen: Screen, readings: &Readings) -> (r: String)
    ensures
        r@ == body_text(screen, *readings),
{
    match readings {
        Readings::Summary(m) => summary_body(m),
        Readings::Cpu(c) => cpu_body(c),
        Readings::Memory(m) => memory_body(m),
        Readings::Battery(b) => battery_body(b),
        Readings::Nothing => if screen == Screen::DetailedMetrics {
            String::from_str(DETAILED_MENU_TEXT)
        } else {
            String::from_str(HELP_TEXT)
        },
    }
}

/// One labelled block of text on the terminal.
#[derive(Clone, Debug)]
pub struct Panel {
    pub title: String,
    pub text: String,
    /// Whether the panel is drawn in the accent colour.
    pub highlighted: bool,
}

/// The three panels of the dashboard, from top to bottom.
#[derive(Clone, Debug)]
pub struct PanelSet {
    pub header: Panel,
    pub body: Panel,
    pub footer: Panel,
}

/// Whether the body panel is highlighted on `screen`.
pub open spec fn body_highlighted(screen: Screen) -> bool {
    screen == Screen::Metrics || screen == Screen::Instructions
}

/// The panels of `screen`, from readings of the kind that it needs. The header
/// is highlighted on the welcome screen, the body on the summary and help
/// screens, the footer never.
pub fn render_panels(screen: Screen, readings: &Readings) -> (r: PanelSet)
    requires
        fits(screen, *readings),
    ensures
        r.header.title@ == HEADER_TITLE@,
        r.header.text@ == HEADER_TEXT@,
        r.header.highlighted == (screen == Screen::Welcome),
        r.body.title@ == BODY_TITLE@,
        r.body.text@ == body_text(screen, *readings),
        r.body.highlighted == body_highlighted(screen),
        r.footer.title@ == FOOTER_TITLE@,
        r.footer.text@ == FOOTER_TEXT@,
        !r.footer.highlighted,
{
    let header = Panel {
        title: String::from_str(HEADER_TITLE),
        text: String::from_str(HEADER_TEXT),
        highlighted: screen == Screen::Welcome,
    };
    let body = Panel {
        title: String::from_str(BODY_TITLE),
        text: body(screen, readings),
        highlighted: screen == Screen::Metrics || screen == Screen::Instructions,
    };
    let footer = Panel {
        title: String::from_str(FOOTER_TITLE),
        text: String::from_str(FOOTER_TEXT),
        highlighted: false,
    };
    PanelSet { header, body, footer }
}

} // verus!
