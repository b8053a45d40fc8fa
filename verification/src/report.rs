//! The lines of the report on a device, and their place beside the vendor's
//! picture.

use crate::device::{PhysicalDevice, PhysicalDeviceView};
use crate::text::{
    byte_length, decimal, hex_upper, push_decimal, push_hex_upper, push_line, push_repeated,
    repeated, texts,
};
use vstd::prelude::*;

verus! {

/// Switches to bold type.
pub const BOLD: &'static str = "\x1B[1m";

/// Switches colour and weight back to the terminal's own.
pub const RESET: &'static str = "\x1B[0m";

/// What the lines below the title begin with.
pub const ALIGNMENT: &'static str = "    ";

/// What stands in for a line of the picture where the picture has ended.
pub const BLANK_ART: &'static str = "                                               ";

/// The width of the memory meter in characters.
pub const METER_WIDTH: usize = 30;

/// The figures of a report that are rounded before they are shown, as the
/// caller has rendered them: byte counts in a unit that suits them, and the
/// memory pressure as a percentage and as the number of filled places of the
/// meter.
#[derive(Debug, Clone, PartialEq, Eq)]
pub struct DeviceFigures {
    pub vram_budget: String,
    pub vram_size: String,
    pub meter_filled: usize,
    pub pressure_percent: String,
    pub max_compute_shared_memory_size: String,
    pub max_compute_work_group_invocations: String,
}

/// The start of a labelled line: the alignment, the label in colour, a colon
/// and a blank.
pub open spec fn heading(color: Seq<char>, label: Seq<char>) -> Seq<char> {
    ALIGNMENT@ + color + label + RESET@ + ": "@
}

/// The title: the device's name in bold and in colour, then its kind.
pub open spec fn title_line(device: PhysicalDeviceView, color: Seq<char>) -> Seq<char> {
    BOLD@ + color + device.device_name + RESET@ + ": "@ + device.device_type.label()
}

/// The rule below the title, as long as the name, the kind and the three
/// characters between them and around the colon take in bytes.
pub open spec fn underline(device: PhysicalDeviceView, color: Seq<char>) -> Seq<char> {
    BOLD@ + color + repeated('=', byte_length(device.device_name) as nat) + repeated(
        '=',
        byte_length(device.device_type.label()) as nat,
    ) + repeated('=', 3)
}

/// The identifiers of device and vendor in hexadecimal, and the vendor's name.
pub open spec fn device_line(device: PhysicalDeviceView, color: Seq<char>) -> Seq<char> {
    heading(color, "Device"@) + "0x"@ + hex_upper(device.device_id as nat) + " : 0x"@ + hex_upper(
        device.vendor_id as nat,
    ) + " ("@ + device.vendor.label() + ")"@
}

/// The driver's name and description.
pub open spec fn driver_line(device: PhysicalDeviceView, color: Seq<char>) -> Seq<char> {
    heading(color, "Driver"@) + device.driver_name + " : "@ + device.driver_info
}

/// The version of the interface that the device supports.
pub open spec fn api_line(device: PhysicalDeviceView, color: Seq<char>) -> Seq<char> {
    heading(color, "API"@) + device.api_version
}

/// The budget of the video memory, in colour, over its size.
pub open spec fn vram_line(color: Seq<char>, figures: DeviceFigures) -> Seq<char> {
    heading(color, "VRAM"@) + color + figures.vram_budget@ + RESET@ + " / "@ + figures.vram_size@
}

/// The meter: its filled places in colour, the rest blank, then the
/// percentage.
pub open spec fn meter_line(color: Seq<char>, figures: DeviceFigures) -> Seq<char> {
    ALIGNMENT@ + "["@ + color + repeated('|', figures.meter_filled as nat) + RESET@ + repeated(
        ' ',
        (METER_WIDTH - figures.meter_filled) as nat,
    ) + "] % "@ + color + figures.pressure_percent@ + RESET@
}

/// A line for a number that only some devices report: there where the number
/// is, and missing where it is not.
pub open spec fn optional_line(color: Seq<char>, label: Seq<char>, value: Option<u32>) -> Seq<
    Seq<char>,
> {
    match value {
        Some(number) => seq![heading(color, label) + decimal(number as nat)],
        None => Seq::<Seq<char>>::empty(),
    }
}

/// The mark of a capability: a cross in a box where the device has it.
pub open spec fn checkbox(set: bool) -> Seq<char> {
    if set {
        "[x]"@
    } else {
        "[ ]"@
    }
}

/// The three capability flags on one line.
pub open spec fn flags_line(device: PhysicalDeviceView, color: Seq<char>) -> Seq<char> {
    heading(color, "Raytracing"@) + checkbox(device.characteristics.supports_ray_tracing) + " | "@
        + color + "Dedicated Transfer Queue"@ + RESET@ + ": "@ + checkbox(
        device.characteristics.dedicated_transfer_queue,
    ) + " | "@ + color + "Dedicated Async Compute Queue"@ + RESET@ + ": "@ + checkbox(
        device.characteristics.dedicated_async_compute_queue,
    )
}

/// The lines of the report on a device: title and rule, identifiers, driver,
/// interface version, video memory and its meter; then one line for each
/// vendor-specific number that is set, in the order of the record; then the
/// two limits and the capability flags.
pub open spec fn device_info(
    device: PhysicalDeviceView,
    color: Seq<char>,
    figures: DeviceFigures,
) -> Seq<Seq<char>> {
    let c = device.characteristics;
    seq![
        title_line(device, color),
        underline(device, color),
        device_line(device, color),
        driver_line(device, color),
        api_line(device, color),
        vram_line(color, figures),
        meter_line(color, figures),
    ] + optional_line(color, "Compute Units"@, c.compute_units) + optional_line(
        color,
        "Shader Engines"@,
        c.shader_engines,
    ) + optional_line(color, "Shader Arrays per Engine"@, c.shader_arrays_per_engine_count)
        + optional_line(color, "Compute Units per Shader Array"@, c.compute_units_per_shader_array)
        + optional_line(color, "SIMD per Compute Unit"@, c.simd_per_compute_unit) + optional_line(
        color,
        "Wavefronts per SIMD"@,
        c.wavefronts_per_simd,
    ) + optional_line(color, "Wavefront Size"@, c.wavefront_size) + optional_line(
        color,
        "Streaming Multiprocessors"@,
        c.streaming_multiprocessors,
    ) + optional_line(color, "Warps per SM"@, c.warps_per_sm) + seq![
        heading(color, "Max Compute Shared Memory Size"@) + figures.max_compute_shared_memory_size@,
        heading(color, "Max Compute Work Group Invocations"@)
            + figures.max_compute_work_group_invocations@,
        flags_line(device, color),
    ]
}

/// Begins a labelled line.
fn begin_line(color: &str, label: &str) -> (line: String)
    ensures
        line@ == heading(color@, label@),
{
    let mut line = ALIGNMENT.to_owned();
    line.append(color);
    line.append(label);
    line.append(RESET);
    line.append(": ");
    line
}

/// Appends the line for a number that only some devices report, if the
/// number is there.
fn push_optional(lines: &mut Vec<String>, color: &str, label: &str, value: Option<u32>)
    ensures
        texts(final(lines)@) == texts(old(lines)@) + optional_line(color@, label@, value),
{
    match value {
        Some(number) => {
            let mut line = begin_line(color, label);
            push_decimal(&mut line, number);
            push_line(lines, line);
            assert(texts(lines@) =~= texts(old(lines)@) + optional_line(color@, label@, value));
        },
        None => {
            assert(texts(lines@) =~= texts(old(lines)@) + optional_line(color@, label@, value));
        },
    }
}

fn checkbox_text(set: bool) -> (mark: &'static str)
    ensures
        mark@ == checkbox(set),
{
    if set {
        "[x]"
    } else {
        "[ ]"
    }
}

/// Returns the lines of the report on a device, each as a string, with the
/// labels in `color`. Lines for numbers that only some devices report are
/// there only if the number is.
pub fn get_device_info(device: &PhysicalDevice, color: &str, figures: &DeviceFigures) -> (lines:
    Vec<String>)
    requires
        figures.meter_filled <= METER_WIDTH,
    ensures
        texts(lines@) == device_info(device@, color@, *figures),
{
    let mut lines: Vec<String> = Vec::new();
    assert(texts(lines@) =~= Seq::<Seq<char>>::empty());

    let mut title = BOLD.to_owned();
    title.append(color);
    title.append(device.device_name.as_str());
    title.append(RESET);
    title.append(": ");
    title.append(device.device_type.name());
    push_line(&mut lines, title);

    let mut rule = BOLD.to_owned();
    rule.append(color);
    push_repeated(&mut rule, '=', device.device_name.as_str().len());
    push_repeated(&mut rule, '=', device.device_type.name().len());
    push_repeated(&mut rule, '=', 3);
    push_line(&mut lines, rule);

    let mut ids = begin_line(color, "Device");
    ids.append("0x");
    push_hex_upper(&mut ids, device.device_id);
    ids.append(" : 0x");
    push_hex_upper(&mut ids, device.vendor_id);
    ids.append(" (");
    ids.append(device.vendor.name());
    ids.append(")");
    push_line(&mut lines, ids);

    let mut driver = begin_line(color, "Driver");
    driver.append(device.driver_name.as_str());
    driver.append(" : ");
    driver.append(device.driver_info.as_str());
    push_line(&mut lines, driver);

    let mut api = begin_line(color, "API");
    api.append(device.api_version.as_str());
    push_line(&mut lines, api);

    let mut vram = begin_line(color, "VRAM");
    vram.append(color);
    vram.append(figures.vram_budget.as_str());
    vram.append(RESET);
    vram.append(" / ");
    vram.append(figures.vram_size.as_str());
    push_line(&mut lines, vram);

    let mut meter = ALIGNMENT.to_owned();
    meter.append("[");
    meter.append(color);
    push_repeated(&mut meter, '|', figures.meter_filled);
    meter.append(RESET);
    push_repeated(&mut meter, ' ', METER_WIDTH - figures.meter_filled);
    meter.append("] % ");
    meter.append(color);
    meter.append(figures.pressure_percent.as_str());
    meter.append(RESET);
    push_line(&mut lines, meter);

    assert(texts(lines@) =~= seq![
        title_line(device@, color@),
        underline(device@, color@),
        device_line(device@, color@),
        driver_line(device@, color@),
        api_line(device@, color@),
        vram_line(color@, *figures),
        meter_line(color@, *figures),
    ]);

    let c = &device.characteristics;
    push_optional(&mut lines, color, "Compute Units", c.compute_units);
    push_optional(&mut lines, color, "Shader Engines", c.shader_engines);
    push_optional(&mut lines, color, "Shader Arrays per Engine", c.shader_arrays_per_engine_count);
    push_optional(
        &mut lines,
        color,
        "Compute Units per Shader Array",
        c.compute_units_per_shader_array,
    );
    push_optional(&mut lines, color, "SIMD per Compute Unit", c.simd_per_compute_unit);
    push_optional(&mut lines, color, "Wavefronts per SIMD", c.wavefronts_per_simd);
    push_optional(&mut lines, color, "Wavefront Size", c.wavefront_size);
    push_optional(&mut lines, color, "Streaming Multiprocessors", c.streaming_multiprocessors);
    push_optional(&mut lines, color, "Warps per SM", c.warps_per_sm);
    let ghost before_limits = texts(lines@);

    let mut shared = begin_line(color, "Max Compute Shared Memory Size");
    shared.append(figures.max_compute_shared_memory_size.as_str());
    push_line(&mut lines, shared);

    let mut invocations = begin_line(color, "Max Compute Work Group Invocations");
    invocations.append(figures.max_compute_work_group_invocations.as_str());
    push_line(&mut lines, invocations);

    let mut flags = begin_line(color, "Raytracing");
    flags.append(checkbox_text(c.supports_ray_tracing));
    flags.append(" | ");
    flags.append(color);
    flags.append("Dedicated Transfer Queue");
    flags.append(RESET);
    flags.append(": ");
    flags.append(checkbox_text(c.dedicated_transfer_queue));
    flags.append(" | ");
    flags.append(color);
    flags.append("Dedicated Async Compute Queue");
    flags.append(RESET);
    flags.append(": ");
    flags.append(checkbox_text(c.dedicated_async_compute_queue));
    push_line(&mut lines, flags);

    assert(texts(lines@) =~= before_limits + seq![
        heading(color@, "Max Compute Shared Memory Size"@)
            + figures.max_compute_shared_memory_size@,
        heading(color@, "Max Compute Work Group Invocations"@)
            + figures.max_compute_work_group_invocations@,
        flags_line(device@, color@),
    ]);
    lines
}

/// One line of the report beside one line of the picture: a blank, the line
/// of the picture or as many blanks where the picture has ended, a blank,
/// and the line of the report or nothing where the report has ended.
pub open spec fn beside(art: Seq<Seq<char>>, info: Seq<Seq<char>>, i: int) -> Seq<char> {
    " "@ + (if i < art.len() {
        art[i]
    } else {
        BLANK_ART@
    }) + " "@ + (if i < info.len() {
        info[i]
    } else {
        ""@
    })
}

/// The picture and the report side by side, as many lines as the longer of
/// the two has.
pub open spec fn side_by_side(art: Seq<Seq<char>>, info: Seq<Seq<char>>) -> Seq<Seq<char>> {
    Seq::new(
        if art.len() >= info.len() {
            art.len()
        } else {
            info.len()
        },
        |i: int| beside(art, info, i),
    )
}

/// Sets the lines of the report beside the lines of the picture.
pub fn set_side_by_side(art: &Vec<String>, info: &Vec<String>) -> (lines: Vec<String>)
    ensures
        texts(lines@) == side_by_side(texts(art@), texts(info@)),
{
    let count = if art.len() >= info.len() {
        art.len()
    } else {
        info.len()
    };
    let mut lines: Vec<String> = Vec::new();
    let mut i: usize = 0;
    while i < count
        invariant
            i <= count,
            count == if art.len() >= info.len() {
                art.len()
            } else {
                info.len()
            },
            lines.len() == i,
            forall|j: int|
                0 <= j < i ==> (#[trigger] lines[j])@ == beside(texts(art@), texts(info@), j),
        decreases count - i,
    {
        let mut line = " ".to_owned();
        if i < art.len() {
            line.append(art[i].as_str());
        } else {
            line.append(BLANK_ART);
        }
        line.append(" ");
        if i < info.len() {
            line.append(info[i].as_str());
        } else {
            line.append("");
        }
        lines.push(line);
        i += 1;
    }
    assert(texts(lines@) =~= side_by_side(texts(art@), texts(info@)));
    lines
}

/// What is printed for a device: the vendor's picture, painted plain or
/// bright, beside the report, whose labels have the first colour of the same
/// palette.
pub open spec fn device_report(device: PhysicalDeviceView, bright: bool, figures: DeviceFigures) -> Seq<
    Seq<char>,
> {
    side_by_side(
        device.vendor.painted_picture(bright),
        device_info(device, device.vendor.palette(bright)@[0]@, figures),
    )
}

/// Lays out what is printed for a device, line by line. `bright` says
/// whether the output shows bright colours.
pub fn fetch_device(device: &PhysicalDevice, bright: bool, figures: &DeviceFigures) -> (lines: Vec<
    String,
>)
    requires
        figures.meter_filled <= METER_WIDTH,
    ensures
        texts(lines@) == device_report(device@, bright, *figures),
{
    let art = device.vendor.get_ascii_art_in(bright);
    let style = if bright {
        device.vendor.get_alternative_style()
    } else {
        device.vendor.get_style()
    };
    let info = get_device_info(device, style[0], figures);
    set_side_by_side(&art, &info)
}

} // verus!
